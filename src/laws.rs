use vstd::prelude::*;

use crate::buffer::{cap_after_push, RawVec};

verus! {

/// The elements after pushing each of `vals`, in order, onto `start`.
pub open spec fn after_pushes<T>(start: Seq<T>, vals: Seq<T>) -> Seq<T>
    decreases vals.len(),
{
    if vals.len() == 0 {
        start
    } else {
        after_pushes(start.push(vals[0]), vals.drop_first())
    }
}

/// The capacity after `n` pushes onto `cap` slots holding `len` elements.
pub open spec fn cap_after_pushes(cap: nat, len: nat, n: nat) -> nat
    decreases n,
{
    if n == 0 {
        cap
    } else {
        cap_after_pushes(cap_after_push(cap, len), len + 1, (n - 1) as nat)
    }
}

/// Pushing values one after another appends them in push order.
proof fn lemma_after_pushes_appends<T>(start: Seq<T>, vals: Seq<T>)
    ensures
        after_pushes(start, vals) == start + vals,
    decreases vals.len(),
{
    if vals.len() == 0 {
        assert(start + vals =~= start);
    } else {
        lemma_after_pushes_appends(start.push(vals[0]), vals.drop_first());
        assert(start.push(vals[0]) + vals.drop_first() =~= start + vals);
    }
}

/// After pushing `n` values onto an empty buffer there are `n` elements, and
/// position `i` holds the `i`-th value pushed.
pub proof fn lemma_pushes_in_order<T>(vals: Seq<T>)
    ensures
        after_pushes(Seq::<T>::empty(), vals).len() == vals.len(),
        forall|i: int| 0 <= i < vals.len() ==> #[trigger] after_pushes(Seq::<T>::empty(), vals)[i] == vals[i],
{
    lemma_after_pushes_appends(Seq::<T>::empty(), vals);
    assert(Seq::<T>::empty() + vals =~= vals);
}

/// Across any run of pushes the capacity never shrinks, and it always covers
/// the elements held.
pub proof fn lemma_cap_monotone(cap: nat, len: nat, m: nat, n: nat)
    requires
        len <= cap,
        m <= n,
    ensures
        cap_after_pushes(cap, len, m) <= cap_after_pushes(cap, len, n),
        len + n <= cap_after_pushes(cap, len, n),
    decreases n,
{
    if n > 0 {
        let c = cap_after_push(cap, len);
        assert(cap <= c && len + 1 <= c);
        lemma_cap_monotone(c, len + 1, if m > 0 { (m - 1) as nat } else { 0 }, (n - 1) as nat);
    }
}

/// Reading a live position, checked or unchecked, gives the same element, and
/// the checked read of any other position gives nothing.
pub proof fn lemma_get_agrees_with_index<T>(v: &RawVec<T>, i: int)
    ensures
        0 <= i < v@.len() ==> v.spec_get(i) == Some(v@[i]),
        i >= v@.len() ==> v.spec_get(i) is None,
{
}

} // verus!
