use vstd::prelude::*;

verus! {

/// A forward walk over shared references to a buffer's elements.
pub struct Iter<'a, T> {
    pub(crate) slice: &'a [T],
    pub(crate) pos: usize,
}

impl<'a, T> Iter<'a, T> {
    /// A walk over all of `slice`, from its first element.
    pub(crate) fn from_slice(slice: &'a [T]) -> (r: Self)
        ensures
            r.wf(),
            r.remaining() == slice@,
    {
        let r = Iter { slice, pos: 0 };
        proof {
            assert(r.remaining() =~= slice@);
        }
        r
    }

    /// The elements not yet handed out, in index order.
    pub closed spec fn remaining(&self) -> Seq<T> {
        self.slice@.skip(self.pos as int)
    }

    /// The cursor stays within the walked elements.
    pub closed spec fn wf(&self) -> bool {
        self.pos <= self.slice@.len()
    }

    /// The next element, or `None` once every element has been handed out.
    pub fn next(&mut self) -> (r: Option<&'a T>)
        requires
            old(self).wf(),
        ensures
            final(self).wf(),
            old(self).remaining().len() == 0 ==> {
                &&& r is None
                &&& final(self).remaining() == old(self).remaining()
            },
            old(self).remaining().len() > 0 ==> {
                &&& r is Some
                &&& *r->0 == old(self).remaining()[0]
                &&& final(self).remaining() == old(self).remaining().drop_first()
            },
    {
        if self.pos == self.slice.len() {
            return None;
        }
        self.pos += 1;
        proof {
            assert(self.remaining() =~= old(self).remaining().drop_first());
        }
        Some(&self.slice[self.pos - 1])
    }
}

/// A forward walk over exclusive references to a buffer's elements, each
/// handed out once.
pub struct IterMut<'a, T> {
    /// The slots not yet handed out.
    pub rest: &'a mut [T],
}

impl<'a, T> IterMut<'a, T> {
    /// The elements not yet handed out, in index order.
    pub open spec fn remaining(&self) -> Seq<T> {
        self.rest@
    }

    /// The next element, or `None` once every element has been handed out.
    pub fn next(&mut self) -> (r: Option<&'a mut T>)
        requires
            final(old(self).rest)@.len() == old(self).rest@.len(),
        ensures
            final(final(self).rest)@.len() == final(self).rest@.len(),
            old(self).remaining().len() == 0 ==> {
                &&& r is None
                &&& final(self).remaining() == old(self).remaining()
                &&& final(old(self).rest)@ == final(final(self).rest)@
            },
            old(self).remaining().len() > 0 ==> {
                &&& r is Some
                &&& *r->0 == old(self).remaining()[0]
                &&& final(self).remaining() == old(self).remaining().drop_first()
                &&& final(old(self).rest)@ == seq![*final(r->0)] + final(final(self).rest)@
            },
    {
        let mut taken: &'a mut [T] = &mut [];
        core::mem::swap(&mut self.rest, &mut taken);
        if taken.len() == 0 {
            self.rest = taken;
            return None;
        }
        let (head, tail) = taken.split_at_mut(1);
        self.rest = tail;
        head.first_mut()
    }
}

} // verus!
