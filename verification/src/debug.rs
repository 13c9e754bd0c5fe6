//! The container printed for a reader: its live elements and nothing else.

use crate::array::Array;
use core::fmt::{Debug, Error, Formatter};
use vstd::prelude::*;

verus! {

/// The formatter of std that `Debug::fmt` writes to.
#[verifier::external_type_specification]
#[verifier::external_body]
pub struct ExFormatter<'a>(Formatter<'a>);

/// The error of std that `Debug::fmt` returns when the formatter fails.
#[verifier::external_type_specification]
#[verifier::external_body]
pub struct ExError(Error);

/// `Debug::fmt` of std for a slice, which writes the elements as a list.
/// Nothing is said of what is written, nor of whether the formatter takes it.
#[verifier::external_body]
fn fmt_slice<T: Debug>(s: &[T], f: &mut Formatter<'_>) -> (r: Result<(), Error>) {
    Debug::fmt(s, f)
}

impl<T: Debug + Copy + Default, const L: usize> Debug for Array<T, L> {
    /// Writes the live elements as std writes a slice.
    fn fmt(&self, f: &mut Formatter<'_>) -> (r: Result<(), Error>) {
        fmt_slice(self.as_slice(), f)
    }
}

} // verus!
