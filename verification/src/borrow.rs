//! The container seen as a slice of its live elements, or as itself.

use crate::array::Array;
use core::ops::{Deref, DerefMut};
use vstd::prelude::*;

verus! {

impl<T, const L: usize> AsRef<Array<T, L>> for Array<T, L> {
    /// The container itself.
    fn as_ref(&self) -> (r: &Array<T, L>)
        ensures
            *r == *self,
    {
        self
    }
}

impl<T, const L: usize> AsMut<Array<T, L>> for Array<T, L> {
    /// The container itself, open to writing.
    fn as_mut(&mut self) -> (r: &mut Array<T, L>)
        ensures
            *r == *old(self),
            *final(self) == *final(r),
    {
        self
    }
}

impl<T: Copy + Default, const L: usize> AsRef<[T]> for Array<T, L> {
    /// The live elements as a slice.
    fn as_ref(&self) -> (r: &[T])
        ensures
            ({
                let live: &[T] = r;
                live@ == self@
            }),
    {
        self.as_slice()
    }
}

impl<T: Copy + Default, const L: usize> AsMut<[T]> for Array<T, L> {
    /// The live elements as a slice, open to writing.
    fn as_mut(&mut self) -> (r: &mut [T])
        ensures
            ({
                let live: &mut [T] = r;
                &&& live@ == old(self)@
                &&& final(live)@.len() == old(self)@.len()
                &&& final(self)@ == final(live)@
                &&& final(self).slots() == final(live)@ + old(self).slots().skip(
                    old(self)@.len() as int,
                )
            }),
    {
        self.as_mut_slice()
    }
}

impl<T: Copy + Default, const L: usize> Deref for Array<T, L> {
    type Target = [T];

    /// The live elements as a slice.
    fn deref(&self) -> (r: &[T])
        ensures
            r@ == self@,
    {
        self.as_slice()
    }
}

impl<T: Copy + Default, const L: usize> DerefMut for Array<T, L> {
    /// The live elements as a slice, open to writing.
    fn deref_mut(&mut self) -> (r: &mut [T])
        ensures
            r@ == old(self)@,
            final(r)@.len() == old(self)@.len(),
            final(self)@ == final(r)@,
            final(self).slots() == final(r)@ + old(self).slots().skip(old(self)@.len() as int),
    {
        self.as_mut_slice()
    }
}

} // verus!
