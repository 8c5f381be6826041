use vstd::layout::size_of;
use vstd::prelude::*;

use crate::iter::{Iter, IterMut};

verus! {

/// Capacity after one growth step from `cap` slots holding `len` elements:
/// one slot when nothing is reserved yet, otherwise half as much again
/// (rounded down), and never less than `len + 1`.
pub open spec fn next_cap(cap: nat, len: nat) -> nat {
    let grown = if cap == 0 { 1 } else { cap + cap / 2 };
    if grown < len + 1 { len + 1 } else { grown }
}

/// Capacity after one push onto `cap` slots holding `len` elements: unchanged
/// while a slot is free, grown by one step otherwise.
pub open spec fn cap_after_push(cap: nat, len: nat) -> nat {
    if len < cap { cap } else { next_cap(cap, len) }
}

/// Whether a buffer of `cap` slots holding `len` elements of `T` can take one
/// more element: either a reserved slot is free, or the grown capacity fits in
/// `usize` and its allocation in `isize::MAX` bytes.
pub open spec fn room_for_push<T>(cap: nat, len: nat) -> bool {
    len < cap || {
        &&& next_cap(cap, len) <= usize::MAX
        &&& next_cap(cap, len) * size_of::<T>() <= isize::MAX
    }
}

/// A growable buffer of `T`: the first `len()` of its `cap()` reserved slots
/// hold live elements.
///
/// The elements live in one vector that owns the reservation. Dropping the
/// buffer drops each live element once, in index order, and then releases the
/// reservation; a buffer that never reserved anything has nothing to release.
pub struct RawVec<T> {
    buf: Vec<T>,
    cap: usize,
}

impl<T> View for RawVec<T> {
    type V = Seq<T>;

    /// The live elements, in index order.
    closed spec fn view(&self) -> Seq<T> {
        self.buf@
    }
}

/// Relies on `Vec::reserve_exact`: the elements are kept as they are and only
/// the allocation may change. It panics when the new capacity overflows `usize`
/// or needs more than `isize::MAX` bytes; `requires` leaves both out.
#[verifier::external_body]
fn reserve_exact<T>(v: &mut Vec<T>, additional: usize)
    requires
        old(v)@.len() + additional <= usize::MAX,
        (old(v)@.len() + additional) * size_of::<T>() <= isize::MAX,
    ensures
        final(v)@ == old(v)@,
{
    v.reserve_exact(additional)
}

/// Relies on `Vec::as_mut_slice`: the slice covers the elements, what is left
/// in it is what the vector holds, and, as for every slice, its length is fixed.
#[verifier::external_body]
fn slots_mut<T>(v: &mut Vec<T>) -> (s: &mut [T])
    ensures
        s@ == old(v)@,
        final(s)@ == final(v)@,
        final(s)@.len() == s@.len(),
{
    v.as_mut_slice()
}

impl<T> RawVec<T> {
    /// The element at `i` when `i` is a live position, else nothing.
    pub open spec fn spec_get(&self, i: int) -> Option<T> {
        if 0 <= i < self@.len() {
            Some(self@[i])
        } else {
            None
        }
    }

    /// The number of reserved slots.
    pub closed spec fn spec_cap(&self) -> nat {
        self.cap as nat
    }

    /// No more live elements than reserved slots.
    pub open spec fn wf(&self) -> bool {
        self@.len() <= self.spec_cap()
    }

    /// An empty buffer with nothing reserved.
    pub fn new() -> (r: Self)
        ensures
            r.wf(),
            r@ == Seq::<T>::empty(),
            r.spec_cap() == 0,
    {
        RawVec { buf: Vec::new(), cap: 0 }
    }

    /// The number of live elements.
    pub fn len(&self) -> (r: usize)
        ensures
            r == self@.len(),
    {
        self.buf.len()
    }

    /// The number of reserved slots.
    pub fn cap(&self) -> (r: usize)
        ensures
            r == self.spec_cap(),
    {
        self.cap
    }

    /// Replaces the reservation by one of `next_cap` slots, keeping every element.
    fn grow(&mut self)
        requires
            old(self).wf(),
            old(self)@.len() == old(self).spec_cap(),
            room_for_push::<T>(old(self).spec_cap(), old(self)@.len()),
        ensures
            final(self).wf(),
            final(self)@ == old(self)@,
            final(self).spec_cap() == next_cap(old(self).spec_cap(), old(self)@.len()),
    {
        let len = self.buf.len();
        let grown: usize = if self.cap == 0 {
            1
        } else {
            self.cap + self.cap / 2
        };
        let new_cap: usize = if grown < len + 1 {
            len + 1
        } else {
            grown
        };
        reserve_exact(&mut self.buf, new_cap - len);
        self.cap = new_cap;
    }

    /// Appends `value` after the last element, growing the reservation first
    /// when every slot is taken.
    pub fn push(&mut self, value: T)
        requires
            old(self).wf(),
            room_for_push::<T>(old(self).spec_cap(), old(self)@.len()),
        ensures
            final(self).wf(),
            final(self)@ == old(self)@.push(value),
            final(self).spec_cap() == cap_after_push(old(self).spec_cap(), old(self)@.len()),
            old(self).spec_cap() <= final(self).spec_cap(),
            final(self)@.len() <= final(self).spec_cap(),
    {
        if self.buf.len() == self.cap {
            self.grow();
        }
        self.buf.push(value);
    }

    /// The element at `index`, or `None` when `index` is not below `len()`.
    pub fn get(&self, index: usize) -> (r: Option<&T>)
        ensures
            match r {
                Some(x) => self.spec_get(index as int) == Some(*x),
                None => self.spec_get(index as int) is None,
            },
    {
        if index < self.buf.len() {
            Some(&self.buf[index])
        } else {
            None
        }
    }

    /// Write access to the element at `index`, or `None` when `index` is not
    /// below `len()`; what is written through the reference lands in that slot.
    pub fn get_mut(&mut self, index: usize) -> (r: Option<&mut T>)
        requires
            old(self).wf(),
        ensures
            final(self).wf(),
            final(self).spec_cap() == old(self).spec_cap(),
            index < old(self)@.len() ==> {
                &&& r is Some
                &&& *r->0 == old(self)@[index as int]
                &&& final(self)@ == old(self)@.update(index as int, *final(r->0))
            },
            index >= old(self)@.len() ==> r is None && final(self)@ == old(self)@,
    {
        if index < self.buf.len() {
            Some(&mut self.buf[index])
        } else {
            None
        }
    }

    /// The element at `index`, which must be below `len()`.
    pub fn index(&self, index: usize) -> (r: &T)
        requires
            index < self@.len(),
        ensures
            *r == self@[index as int],
    {
        &self.buf[index]
    }

    /// Write access to the element at `index`, which must be below `len()`.
    pub fn index_mut(&mut self, index: usize) -> (r: &mut T)
        requires
            old(self).wf(),
            index < old(self)@.len(),
        ensures
            final(self).wf(),
            *r == old(self)@[index as int],
            final(self)@ == old(self)@.update(index as int, *final(r)),
            final(self).spec_cap() == old(self).spec_cap(),
    {
        &mut self.buf[index]
    }

    /// A fresh walk over the elements, in index order.
    pub fn iter(&self) -> (r: Iter<'_, T>)
        ensures
            r.wf(),
            r.remaining() == self@,
    {
        Iter::from_slice(self.buf.as_slice())
    }

    /// A fresh walk over write access to the elements, in index order; when
    /// the walk is over, the buffer holds what was left in its slots.
    pub fn iter_mut(&mut self) -> (r: IterMut<'_, T>)
        requires
            old(self).wf(),
        ensures
            r.remaining() == old(self)@,
            final(self)@ == final(r.rest)@,
            final(r.rest)@.len() == r.rest@.len(),
            final(self).spec_cap() == old(self).spec_cap(),
            final(self).wf(),
    {
        IterMut { rest: slots_mut(&mut self.buf) }
    }
}

} // verus!
