//! A cursor over a range of elements removed from an [`ArrayVec`].
//!
//! The cursor owns the removed elements: when it is created the vector has
//! already been compacted, so dropping the cursor early — with some or all
//! of its elements unconsumed — simply destroys the remaining elements and
//! leaves the vector untouched and valid.

use vstd::prelude::*;

verus! {

/// Yields the elements removed from a contiguous index range of an
/// `ArrayVec`, one at a time, from either end.
#[derive(Debug, PartialEq)]
pub struct Drain<T> {
    items: Vec<T>,
}

impl<T> View for Drain<T> {
    type V = Seq<T>;

    closed spec fn view(&self) -> Seq<T> {
        self.items@
    }
}

impl<T> Drain<T> {
    /// Wraps the already-removed elements of a drained range.
    pub(crate) fn with_items(items: Vec<T>) -> (d: Self)
        ensures
            d@ == items@,
    {
        Drain { items }
    }

    /// Removes and returns the frontmost not-yet-yielded element, or
    /// nothing once every element has been consumed.
    pub fn next(&mut self) -> (r: Option<T>)
        ensures
            old(self)@.len() == 0 ==> r == None::<T> && final(self)@ == old(self)@,
            old(self)@.len() > 0 ==> r == Some(old(self)@.first()) && final(self)@
                == old(self)@.subrange(1, old(self)@.len() as int),
    {
        if self.items.len() == 0 {
            None
        } else {
            Some(self.items.remove(0))
        }
    }

    /// Removes and returns the backmost not-yet-yielded element, or
    /// nothing once every element has been consumed. Front and back
    /// consumption may interleave.
    pub fn next_back(&mut self) -> (r: Option<T>)
        ensures
            old(self)@.len() == 0 ==> r == None::<T> && final(self)@ == old(self)@,
            old(self)@.len() > 0 ==> r == Some(old(self)@.last()) && final(self)@
                == old(self)@.drop_last(),
    {
        self.items.pop()
    }

    /// The exact count of remaining elements: `next` and `next_back`
    /// together succeed exactly this many more times.
    pub fn len(&self) -> (n: usize)
        ensures
            n == self@.len(),
    {
        self.items.len()
    }
}

} // verus!
