//! General laws of the container, stated over the same sequence model that
//! the operation contracts use, and proved once for every input.

use vstd::prelude::*;
use vstd::std_specs::cmp::PartialEqSpec;

use crate::ArrayVec;

verus! {

/// The contents after pushing every value of `vs`, in order, onto a vector
/// whose contents are `s`: the iterated form of what one `push` ensures.
pub open spec fn pushed_all<T>(s: Seq<T>, vs: Seq<T>) -> Seq<T>
    decreases vs.len(),
{
    if vs.len() == 0 {
        s
    } else {
        pushed_all(s.push(vs[0]), vs.drop_first())
    }
}

/// Law: a sequence of pushes appends exactly the pushed values, in order,
/// so the length afterward is the old length plus the number of pushes and
/// the contents are the old contents followed by the pushed values.
pub proof fn lemma_pushes_append<T>(s: Seq<T>, vs: Seq<T>)
    ensures
        pushed_all(s, vs) == s + vs,
        pushed_all(s, vs).len() == s.len() + vs.len(),
    decreases vs.len(),
{
    if vs.len() == 0 {
        assert(pushed_all(s, vs) =~= s + vs);
    } else {
        lemma_pushes_append(s.push(vs[0]), vs.drop_first());
        assert(s.push(vs[0]) + vs.drop_first() =~= s + vs);
    }
}

/// Law: after inserting `x` at position `i`, position `i` holds `x`, the
/// elements before `i` are unmoved, and every element previously at a
/// position `j >= i` now stands at `j + 1`, in unchanged relative order.
pub proof fn lemma_insert_shifts<T>(s: Seq<T>, i: int, x: T)
    requires
        0 <= i <= s.len(),
    ensures
        s.insert(i, x).len() == s.len() + 1,
        s.insert(i, x)[i] == x,
        forall|j: int| 0 <= j < i ==> s.insert(i, x)[j] == s[j],
        forall|j: int| i <= j < s.len() ==> s.insert(i, x)[j + 1] == s[j],
{
}

/// Law: draining the range `[start, end)` conserves every element exactly
/// once — the kept prefix, the drained range, and the kept tail reassemble
/// the original contents — and the vector afterward holds exactly
/// `len - (end - start)` elements.
pub proof fn lemma_drain_conserves<T>(s: Seq<T>, start: int, end: int)
    requires
        0 <= start <= end <= s.len(),
    ensures
        s.subrange(0, start) + s.subrange(start, end) + s.subrange(end, s.len() as int) == s,
        (s.subrange(0, start) + s.subrange(end, s.len() as int)).len() == s.len() - (end - start),
{
    assert(s.subrange(0, start) + s.subrange(start, end) + s.subrange(end, s.len() as int) =~= s);
}

/// Law: two vectors, possibly of different fixed capacities, compare equal
/// exactly when their live contents are equal. `eq_spec` is what the `==`
/// operator returns for an element type whose equality is honest, so this
/// pins the comparison to the live elements alone, independent of capacity.
pub proof fn lemma_eq_is_content_equality<T: PartialEq, const N: usize, const M: usize>(
    a: ArrayVec<T, N>,
    b: ArrayVec<T, M>,
)
    requires
        vstd::laws_eq::obeys_concrete_eq::<T>(),
    ensures
        a.eq_spec(&b) <==> a@ == b@,
{
    reveal(vstd::laws_eq::obeys_concrete_eq);
    if a.eq_spec(&b) {
        assert(a@ =~= b@);
    }
}

} // verus!
