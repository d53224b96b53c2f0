//! Materialises a foreign, fixed-length array as an owned `Vec`, converting
//! each element on the way.
//!
//! The array stays with the runtime that owns it. What this library borrows
//! is an [`ArrayHandle`]: the length the array reports and the capability to
//! read an element below that length. An import reads the elements in index
//! order, converts each one, and hands back a vector that owns the results.

pub mod handle;
pub mod import;
pub mod laws;

pub use crate::handle::ArrayHandle;
pub use crate::import::{from_array, from_array_, from_value_array, try_from_array_};
