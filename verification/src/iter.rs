//! Walking the live elements: borrowed, open to writing, or copied out by a
//! cursor that remembers how many elements were live when it was made.

use crate::array::Array;
use core::slice::Iter;
use vstd::prelude::*;
use vstd::std_specs::iter::{IteratorSpec, IteratorSpecImpl};

verus! {

/// A cursor over the storage of an `Array`. It yields copies of the elements
/// that were live when it was made, front to back, and nothing after them.
pub struct UnsafeIter<'a, T> {
    data: &'a [T],
    idx: usize,
    len: usize,
}

impl<'a, T> UnsafeIter<'a, T> {
    #[verifier::type_invariant]
    spec fn in_range(self) -> bool {
        self.idx <= self.len <= self.data@.len()
    }

    /// The elements still to come, in the order in which they come.
    pub closed spec fn rest(&self) -> Seq<T> {
        self.data@.subrange(self.idx as int, self.len as int)
    }

    /// The cursor has come to its end; it leaves that state no more.
    pub open spec fn exhausted(&self) -> bool {
        self.rest().len() == 0
    }

    /// A cursor in front of the first of the first `len` slots of `data`.
    pub(crate) fn over(data: &'a [T], len: usize) -> (r: Self)
        requires
            len <= data@.len(),
        ensures
            r.rest() == data@.take(len as int),
    {
        UnsafeIter { data, idx: 0, len }
    }
}

impl<'a, T: Copy> Iterator for UnsafeIter<'a, T> {
    type Item = T;

    /// The next element and one step forward; at the end, nothing, and the
    /// cursor stays as it is.
    fn next(&mut self) -> (r: Option<T>)
        ensures
            old(self).exhausted() ==> r.is_none() && *final(self) == *old(self),
            !old(self).exhausted() ==> r == Some(old(self).rest().first()) && final(self).rest()
                == old(self).rest().drop_first(),
    {
        proof {
            use_type_invariant(&*self);
        }
        if self.idx < self.len {
            let item = self.data[self.idx];
            self.idx += 1;
            Some(item)
        } else {
            None
        }
    }
}

impl<'a, T: Copy> IteratorSpecImpl for UnsafeIter<'a, T> {
    open spec fn obeys_prophetic_iter_laws(&self) -> bool {
        true
    }

    open spec fn remaining(&self) -> Seq<T> {
        self.rest()
    }

    open spec fn will_return_none(&self) -> bool {
        true
    }

    open spec fn decrease(&self) -> Option<nat> {
        Some(self.rest().len())
    }

    open spec fn initial_value_relation(&self, init: &Self) -> bool {
        init.rest() == self.rest()
    }

    open spec fn peek(&self, index: int) -> Option<T> {
        if 0 <= index < self.rest().len() {
            Some(self.rest()[index])
        } else {
            None
        }
    }
}

/// An iterator over what is left of a run of elements, each handed out open
/// to writing. `rest` is that run: what it holds now is what is still to
/// come, and what it holds in the end is what the writers have left there.
pub struct IterMut<'a, T> {
    pub rest: &'a mut [T],
}

impl<'a, T> Iterator for IterMut<'a, T> {
    type Item = &'a mut T;

    /// The first element of the rest, open to writing, and the rest shortened
    /// by it; at the end, nothing. What is written through the element handed
    /// out becomes the front of what the rest held in the end.
    fn next(&mut self) -> (r: Option<&'a mut T>)
        ensures
            old(self).rest@.len() == 0 ==> ({
                &&& r.is_none()
                &&& final(self).rest@.len() == 0
                &&& final(old(self).rest)@.len() == 0
            }),
            old(self).rest@.len() > 0 ==> ({
                &&& r.is_some()
                &&& *r.unwrap() == old(self).rest@.first()
                &&& final(self).rest@ == old(self).rest@.drop_first()
                &&& final(old(self).rest)@ == seq![*final(r.unwrap())] + final(final(self).rest)@
            }),
    {
        let mut taken: &'a mut [T] = &mut [];
        core::mem::swap(&mut self.rest, &mut taken);
        if taken.len() == 0 {
            None
        } else {
            let (head, tail) = taken.split_at_mut(1);
            self.rest = tail;
            Some(&mut head[0])
        }
    }
}

/// Loops over an `IterMut` are not reasoned about in the vocabulary that vstd
/// has for `for`: what `next` does is stated on `next` itself.
impl<'a, T> IteratorSpecImpl for IterMut<'a, T> {
    open spec fn obeys_prophetic_iter_laws(&self) -> bool {
        false
    }

    open spec fn remaining(&self) -> Seq<&'a mut T> {
        Seq::empty()
    }

    open spec fn will_return_none(&self) -> bool {
        false
    }

    open spec fn decrease(&self) -> Option<nat> {
        None
    }

    open spec fn initial_value_relation(&self, init: &Self) -> bool {
        true
    }

    open spec fn peek(&self, index: int) -> Option<&'a mut T> {
        None
    }
}

impl<T: Copy + Default, const L: usize> Array<T, L> {
    /// Walks the live elements, front to back.
    pub fn iter(&self) -> (r: Iter<'_, T>)
        ensures
            IteratorSpec::remaining(&r) == self@.as_ref(),
            IteratorSpec::decrease(&r) is Some,
    {
        self.as_slice().iter()
    }

    /// Walks the live elements, front to back, each open to writing. What
    /// the walk leaves in them is what they hold afterwards; their number
    /// stays as it is, and so do the slots behind them.
    pub fn iter_mut(&mut self) -> (r: IterMut<'_, T>)
        ensures
            r.rest@ == old(self)@,
            final(r.rest)@.len() == old(self)@.len(),
            final(self)@ == final(r.rest)@,
            final(self).slots() == final(r.rest)@ + old(self).slots().skip(
                old(self)@.len() as int,
            ),
    {
        IterMut { rest: self.as_mut_slice() }
    }

    /// A cursor over the elements that are live now.
    pub fn into_iter(&self) -> (r: UnsafeIter<'_, T>)
        ensures
            r.rest() == self@,
    {
        let n = self.len();
        UnsafeIter::over(self.buf().as_slice(), n)
    }
}

} // verus!
