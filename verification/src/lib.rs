//! A fixed-capacity vector with inline, compile-time-sized storage.
//!
//! `ArrayVec<T, N>` holds at most `N` elements of type `T`. The capacity is
//! part of the type and never changes: exceeding it is always a reported
//! condition (`CapacityError`), never handled by reallocation. A companion
//! cursor type, [`Drain`], removes a contiguous index range from the vector
//! and yields the removed elements from either end.

use vstd::prelude::*;

mod drain;
pub mod laws;

pub use drain::Drain;

verus! {

use vstd::std_specs::cmp::PartialEqSpec;
use vstd::std_specs::cmp::PartialOrdSpec;

/// The error returned when an operation would need more than the remaining
/// free slots. It carries the rejected payload back to the caller, so no
/// data is ever silently discarded on a failed push or insert.
#[derive(Debug, Clone, Copy, PartialEq, Eq, Hash)]
pub struct CapacityError<T>(pub T);

/// A vector backed by storage for exactly `N` elements.
///
/// The live elements are the logical sequence `[0, len)`, with
/// `len <= N` at all times. All mutators either succeed completely or
/// leave the vector unchanged.
#[derive(Debug, Clone, Hash, Ord)]
pub struct ArrayVec<T, const N: usize> {
    items: Vec<T>,
}

impl<T, const N: usize> View for ArrayVec<T, N> {
    type V = Seq<T>;

    closed spec fn view(&self) -> Seq<T> {
        self.items@
    }
}

impl<T, const N: usize> ArrayVec<T, N> {
    /// The vector is valid: it never holds more than `N` live elements.
    pub closed spec fn wf(&self) -> bool {
        self.items@.len() <= N
    }

    /// Returns an empty vector.
    pub fn new() -> (v: Self)
        ensures
            v.wf(),
            v@ == Seq::<T>::empty(),
    {
        ArrayVec { items: Vec::new() }
    }

    /// The number of live elements.
    pub fn len(&self) -> (n: usize)
        ensures
            n == self@.len(),
    {
        self.items.len()
    }

    /// Whether the vector holds no elements.
    pub fn is_empty(&self) -> (b: bool)
        ensures
            b <==> self@.len() == 0,
    {
        self.items.len() == 0
    }

    /// The fixed capacity `N`.
    pub fn capacity(&self) -> (c: usize)
        ensures
            c == N,
    {
        N
    }

    /// Whether the vector holds exactly `N` elements.
    pub fn is_full(&self) -> (b: bool)
        requires
            self.wf(),
        ensures
            b <==> self@.len() == N,
    {
        self.items.len() == N
    }

    /// How many more elements fit before the capacity is reached.
    pub fn remaining_capacity(&self) -> (n: usize)
        requires
            self.wf(),
        ensures
            n == N - self@.len(),
    {
        N - self.items.len()
    }

    /// A read-only view of the live elements, exactly `[0, len)`.
    pub fn as_slice(&self) -> (s: &[T])
        ensures
            s@ == self@,
    {
        self.items.as_slice()
    }

    /// A mutable view of the live elements, exactly `[0, len)`. A slice
    /// cannot change its length, so the vector afterward holds whatever
    /// values the caller wrote, at the same positions.
    pub fn as_slice_mut(&mut self) -> (s: &mut [T])
        requires
            old(self).wf(),
        ensures
            s@ == old(self)@,
            final(self)@ == final(s)@,
            final(s)@.len() <= N ==> final(self).wf(),
    {
        self.items.as_mut_slice()
    }

    /// Appends `item` without checking capacity. The caller must have
    /// established that the vector is not full.
    pub fn push_unchecked(&mut self, item: T)
        requires
            old(self).wf(),
            old(self)@.len() < N,
        ensures
            final(self).wf(),
            final(self)@ == old(self)@.push(item),
    {
        self.items.push(item);
    }

    /// Appends `item` to the end of the vector. The caller must have
    /// established sufficient capacity as a precondition; on a full vector
    /// capacity exhaustion is a programming error, not a recoverable
    /// condition.
    pub fn push(&mut self, item: T)
        requires
            old(self).wf(),
            old(self)@.len() < N,
        ensures
            final(self).wf(),
            final(self)@ == old(self)@.push(item),
    {
        // The precondition rules the full case out, so the error arm cannot run.
        match self.try_push(item) {
            Ok(_) => {}
            Err(_) => {}
        }
    }

    /// Tries to append `item`, handing it back inside the error when the
    /// vector is full. A full vector is left completely unchanged.
    pub fn try_push(&mut self, item: T) -> (r: Result<(), CapacityError<T>>)
        requires
            old(self).wf(),
        ensures
            final(self).wf(),
            old(self)@.len() < N ==> r == Ok::<(), CapacityError<T>>(()) && final(self)@
                == old(self)@.push(item),
            old(self)@.len() == N ==> r == Err::<(), CapacityError<T>>(CapacityError(item))
                && final(self)@ == old(self)@,
    {
        if self.is_full() {
            Err(CapacityError(item))
        } else {
            self.push_unchecked(item);
            Ok(())
        }
    }

    /// Removes and returns the last live element, or nothing when the
    /// vector is empty.
    pub fn pop(&mut self) -> (r: Option<T>)
        requires
            old(self).wf(),
        ensures
            final(self).wf(),
            old(self)@.len() == 0 ==> r == None::<T> && final(self)@ == old(self)@,
            old(self)@.len() > 0 ==> r == Some(old(self)@.last()) && final(self)@
                == old(self)@.drop_last(),
    {
        self.items.pop()
    }

    /// Shortens the vector to `new_length` elements, destroying the rest.
    /// A `new_length` at or beyond the current length leaves the vector
    /// unchanged.
    pub fn truncate(&mut self, new_length: usize)
        requires
            old(self).wf(),
        ensures
            final(self).wf(),
            new_length <= old(self)@.len() ==> final(self)@ == old(self)@.subrange(
                0,
                new_length as int,
            ),
            new_length > old(self)@.len() ==> final(self)@ == old(self)@,
    {
        self.items.truncate(new_length);
    }

    /// Removes all live elements.
    pub fn clear(&mut self)
        requires
            old(self).wf(),
        ensures
            final(self).wf(),
            final(self)@ == Seq::<T>::empty(),
    {
        self.truncate(0);
        proof {
            assert(self@ =~= Seq::<T>::empty());
        }
    }

    /// Tries to insert `item` at position `index`, shifting every element
    /// at `[index, len)` one slot to the right. When the vector is full it
    /// is left completely unchanged and `item` is handed back inside the
    /// error. An index beyond the current length is a programming error and
    /// is excluded by precondition.
    pub fn try_insert(&mut self, index: usize, item: T) -> (r: Result<(), CapacityError<T>>)
        requires
            old(self).wf(),
            index <= old(self)@.len(),
        ensures
            final(self).wf(),
            old(self)@.len() < N ==> r == Ok::<(), CapacityError<T>>(()) && final(self)@
                == old(self)@.insert(index as int, item),
            old(self)@.len() == N ==> r == Err::<(), CapacityError<T>>(CapacityError(item))
                && final(self)@ == old(self)@,
    {
        if self.is_full() {
            return Err(CapacityError(item));
        }
        self.items.insert(index, item);
        Ok(())
    }

    /// Inserts `item` at position `index`. The caller must have established
    /// sufficient capacity as a precondition; on a full vector capacity
    /// exhaustion is a programming error, not a recoverable condition.
    pub fn insert(&mut self, index: usize, item: T)
        requires
            old(self).wf(),
            index <= old(self)@.len(),
            old(self)@.len() < N,
        ensures
            final(self).wf(),
            final(self)@ == old(self)@.insert(index as int, item),
    {
        // The precondition rules the full case out, so the error arm cannot run.
        match self.try_insert(index, item) {
            Ok(_) => {}
            Err(_) => {}
        }
    }

    /// Tries to append a copy of every element of `other`, in order. When
    /// the remaining capacity is too small the vector is left completely
    /// unchanged and the error carries no payload: the caller still holds
    /// the slice.
    pub fn try_extend_from_slice(&mut self, other: &[T]) -> (r: Result<(), CapacityError<()>>) where
        T: Copy,

        requires
            old(self).wf(),
        ensures
            final(self).wf(),
            old(self)@.len() + other@.len() <= N ==> r == Ok::<(), CapacityError<()>>(())
                && final(self)@ == old(self)@ + other@,
            old(self)@.len() + other@.len() > N ==> r == Err::<(), CapacityError<()>>(
                CapacityError(()),
            ) && final(self)@ == old(self)@,
    {
        if self.remaining_capacity() < other.len() {
            return Err(CapacityError(()));
        }
        let ghost start = self@;
        let mut i: usize = 0;
        while i < other.len()
            invariant
                i <= other@.len(),
                start.len() + other@.len() <= N,
                self@ == start + other@.subrange(0, i as int),
            decreases other@.len() - i,
        {
            let x: T = other[i];
            self.items.push(x);
            proof {
                assert(self@ =~= start + other@.subrange(0, i + 1));
            }
            i = i + 1;
        }
        proof {
            assert(self@ =~= start + other@);
        }
        Ok(())
    }

    /// Takes ownership of all `N` elements of a fully-populated array,
    /// yielding a full vector with the array's contents in order.
    pub fn from_array(array: [T; N]) -> (v: Self)
        ensures
            v.wf(),
            v@ == array@,
            v@.len() == N,
    {
        ArrayVec { items: array_into_vec(array) }
    }

    /// Removes the index range `[start, end)` from the vector and returns a
    /// cursor that yields the removed elements. The surviving tail — the
    /// elements originally at `[end, len)` — is relocated to close the gap,
    /// so the vector is valid again the moment the cursor exists; dropping
    /// the cursor early only destroys its unconsumed elements.
    pub fn drain(&mut self, start: usize, end: usize) -> (d: Drain<T>)
        requires
            old(self).wf(),
            start <= end <= old(self)@.len(),
        ensures
            final(self).wf(),
            final(self)@ == old(self)@.subrange(0, start as int) + old(self)@.subrange(
                end as int,
                old(self)@.len() as int,
            ),
            final(self)@.len() == old(self)@.len() - (end - start),
            d@ == old(self)@.subrange(start as int, end as int),
    {
        let mut removed = self.items.split_off(start);
        let mut tail = removed.split_off(end - start);
        self.items.append(&mut tail);
        Drain::with_items(removed)
    }
}

/// Relies on `Vec::from` on an array: the vector holds exactly the array's
/// elements, in order ("Allocate a `Vec<T>` and move `array`'s items into it").
#[verifier::external_body]
fn array_into_vec<T, const N: usize>(array: [T; N]) -> (v: Vec<T>)
    ensures
        v@ == array@,
{
    Vec::from(array)
}

// Equality is defined structurally over the live elements alone: two vectors
// of different fixed capacities but equal live contents compare equal.
impl<T: PartialEq, const N: usize, const M: usize> PartialEq<ArrayVec<T, M>> for ArrayVec<T, N> {
    fn eq(&self, other: &ArrayVec<T, M>) -> (r: bool) {
        self.items == other.items
    }
}

impl<T: PartialEq, const N: usize, const M: usize> vstd::std_specs::cmp::PartialEqSpecImpl<ArrayVec<T, M>> for ArrayVec<T, N> {
    open spec fn obeys_eq_spec() -> bool {
        T::obeys_eq_spec()
    }

    open spec fn eq_spec(&self, other: &ArrayVec<T, M>) -> bool {
        &&& self@.len() == other@.len()
        &&& forall|i: int| #![auto] 0 <= i < self@.len() ==> self@[i].eq_spec(&other@[i])
    }
}

impl<T: Eq, const N: usize> Eq for ArrayVec<T, N> {

}

/// Lexicographic comparison of two sequences by the element ordering: the
/// first position where the elements differ decides, and a strict prefix
/// orders before any longer sequence.
pub open spec fn lex_cmp<T: PartialOrd>(a: Seq<T>, b: Seq<T>) -> Option<core::cmp::Ordering>
    decreases a.len(),
{
    if a.len() == 0 && b.len() == 0 {
        Some(core::cmp::Ordering::Equal)
    } else if a.len() == 0 {
        Some(core::cmp::Ordering::Less)
    } else if b.len() == 0 {
        Some(core::cmp::Ordering::Greater)
    } else {
        match a[0].partial_cmp_spec(&b[0]) {
            Some(core::cmp::Ordering::Equal) => lex_cmp(a.drop_first(), b.drop_first()),
            c => c,
        }
    }
}

// Ordering, like equality, is defined over the live elements alone,
// independent of either vector's fixed capacity.
impl<T: PartialOrd, const N: usize, const M: usize> PartialOrd<ArrayVec<T, M>> for ArrayVec<T, N> {
    fn partial_cmp(&self, other: &ArrayVec<T, M>) -> (r: Option<core::cmp::Ordering>) {
        proof {
            assert(self@.skip(0) =~= self@);
            assert(other@.skip(0) =~= other@);
        }
        let mut i: usize = 0;
        loop
            invariant
                i <= self@.len(),
                i <= other@.len(),
                T::obeys_partial_cmp_spec() ==> lex_cmp(self@, other@) == lex_cmp(
                    self@.skip(i as int),
                    other@.skip(i as int),
                ),
            decreases self@.len() - i,
        {
            if i == self.items.len() && i == other.items.len() {
                return Some(core::cmp::Ordering::Equal);
            }
            if i == self.items.len() {
                return Some(core::cmp::Ordering::Less);
            }
            if i == other.items.len() {
                return Some(core::cmp::Ordering::Greater);
            }
            let c = (&self.items[i]).partial_cmp(&other.items[i]);
            match c {
                Some(core::cmp::Ordering::Equal) => {
                    proof {
                        assert(self@.skip(i as int).drop_first() =~= self@.skip(i as int + 1));
                        assert(other@.skip(i as int).drop_first() =~= other@.skip(i as int + 1));
                    }
                    i = i + 1;
                }
                _ => {
                    return c;
                }
            }
        }
    }
}

impl<T: PartialOrd, const N: usize, const M: usize> vstd::std_specs::cmp::PartialOrdSpecImpl<ArrayVec<T, M>> for ArrayVec<T, N> {
    open spec fn obeys_partial_cmp_spec() -> bool {
        T::obeys_partial_cmp_spec()
    }

    open spec fn partial_cmp_spec(&self, other: &ArrayVec<T, M>) -> Option<core::cmp::Ordering> {
        lex_cmp(self@, other@)
    }
}

impl<T, const N: usize> Default for ArrayVec<T, N> {
    /// Returns an empty vector, as [`ArrayVec::new`] does.
    fn default() -> (v: Self)
        ensures
            v.wf(),
            v@ == Seq::<T>::empty(),
    {
        ArrayVec::new()
    }
}

// Conversion from a fully-populated array. The contract lives on
// `ArrayVec::from_array`, which this delegates to.
impl<T, const N: usize> From<[T; N]> for ArrayVec<T, N> {
    fn from(array: [T; N]) -> (v: Self) {
        ArrayVec::from_array(array)
    }
}

impl<T, const N: usize> vstd::std_specs::convert::FromSpecImpl<[T; N]> for ArrayVec<T, N> {
    open spec fn obeys_from_spec() -> bool {
        false
    }

    open spec fn from_spec(array: [T; N]) -> Self {
        choose|v: ArrayVec<T, N>| v@ == array@
    }
}

} // verus!
