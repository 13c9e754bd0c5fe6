//! A fixed-capacity sequence stored inline: up to `L` elements of type `T`
//! in an array of `L` slots, with the number of live elements kept beside it.
//!
//! - [`array`]: the container and its operations.
//! - [`iter`]: walking the live elements.
//! - [`equality`], [`borrow`], [`debug`]: the container under the traits of std.
//! - [`block`]: copying and moving runs of slots in the storage.
//! - [`model`]: the vocabulary of the contracts.
//! - [`laws`]: what holds between the operations.

pub mod array;
pub mod block;
pub mod borrow;
mod bounded;
pub mod debug;
pub mod equality;
pub mod iter;
pub mod laws;
pub mod model;

pub use array::Array;
pub use iter::{IterMut, UnsafeIter};
