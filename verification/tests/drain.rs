use const_arrayvec::ArrayVec;

use std::cell::Cell;
use std::rc::Rc;

struct Counted {
    value: u32,
    drops: Rc<Cell<usize>>,
}

impl Counted {
    fn new(value: u32, drops: &Rc<Cell<usize>>) -> Counted {
        Counted { value, drops: Rc::clone(drops) }
    }
}

impl Drop for Counted {
    fn drop(&mut self) {
        self.drops.set(self.drops.get() + 1);
    }
}

fn sample() -> ArrayVec<u32, 8> {
    let mut v: ArrayVec<u32, 8> = ArrayVec::new();
    for x in [10u32, 11, 12, 13, 14] {
        v.push(x);
    }
    v
}

#[test]
fn forward_consumption_yields_the_range_in_index_order() {
    let mut v = sample();
    let mut d = v.drain(1, 3);
    assert_eq!(d.len(), 2);
    assert_eq!(d.next(), Some(11));
    assert_eq!(d.len(), 1);
    assert_eq!(d.next(), Some(12));
    assert_eq!(d.len(), 0);
    assert_eq!(d.next(), None);
    assert_eq!(d.next(), None);
    drop(d);
    assert_eq!(v.len(), 3);
    assert_eq!(v.as_slice(), &[10, 13, 14]);
}

#[test]
fn backward_consumption_yields_the_range_in_reverse_index_order() {
    let mut v = sample();
    let mut d = v.drain(1, 4);
    assert_eq!(d.next_back(), Some(13));
    assert_eq!(d.next_back(), Some(12));
    assert_eq!(d.next_back(), Some(11));
    assert_eq!(d.next_back(), None);
    drop(d);
    assert_eq!(v.as_slice(), &[10, 14]);
}

#[test]
fn mixed_consumption_yields_each_element_exactly_once() {
    let mut v = sample();
    let mut d = v.drain(0, 5);
    assert_eq!(d.len(), 5);
    assert_eq!(d.next(), Some(10));
    assert_eq!(d.next_back(), Some(14));
    assert_eq!(d.next(), Some(11));
    assert_eq!(d.next_back(), Some(13));
    assert_eq!(d.len(), 1);
    assert_eq!(d.next(), Some(12));
    assert_eq!(d.next(), None);
    assert_eq!(d.next_back(), None);
    drop(d);
    assert!(v.is_empty());
}

#[test]
fn drain_len_counts_the_remaining_successful_calls() {
    let mut v = sample();
    let mut d = v.drain(0, 4);
    let mut successes = 0;
    let expected = d.len();
    while d.next().is_some() {
        successes += 1;
    }
    assert_eq!(successes, expected);
    assert_eq!(d.len(), 0);
}

#[test]
fn abandoning_the_cursor_early_still_restores_the_vector() {
    let mut v: ArrayVec<u32, 5> = ArrayVec::new();
    for x in [1u32, 2, 3, 4, 5] {
        v.push(x);
    }
    let d = v.drain(1, 3);
    drop(d);
    assert_eq!(v.as_slice(), &[1, 4, 5]);
    assert_eq!(v.len(), 3);
}

#[test]
fn abandoning_the_cursor_destroys_each_unyielded_element_once() {
    let drops = Rc::new(Cell::new(0));
    let mut v: ArrayVec<Counted, 5> = ArrayVec::new();
    for i in 1..=5 {
        v.push(Counted::new(i, &drops));
    }
    let mut d = v.drain(1, 4);
    let yielded = d.next().unwrap();
    assert_eq!(yielded.value, 2);
    drop(yielded);
    assert_eq!(drops.get(), 1);
    drop(d);
    assert_eq!(drops.get(), 3);
    assert_eq!(v.len(), 2);
    assert_eq!(v.as_slice()[0].value, 1);
    assert_eq!(v.as_slice()[1].value, 5);
}

#[test]
fn draining_an_empty_range_changes_nothing() {
    let mut v = sample();
    let mut d = v.drain(2, 2);
    assert_eq!(d.len(), 0);
    assert_eq!(d.next(), None);
    drop(d);
    assert_eq!(v.as_slice(), &[10, 11, 12, 13, 14]);
}

#[test]
fn draining_the_whole_vector_empties_it() {
    let mut v = sample();
    let d = v.drain(0, 5);
    assert_eq!(d.len(), 5);
    drop(d);
    assert!(v.is_empty());
    assert_eq!(v.remaining_capacity(), 8);
}

#[test]
fn draining_a_tailless_range_keeps_the_prefix() {
    let mut v = sample();
    let mut d = v.drain(3, 5);
    assert_eq!(d.next(), Some(13));
    assert_eq!(d.next(), Some(14));
    drop(d);
    assert_eq!(v.as_slice(), &[10, 11, 12]);
}
