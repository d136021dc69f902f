//! Keeps the extension traits closed to the two container shapes.

use vstd::prelude::*;

verus! {

/// Implemented by `Result` and `Option`, and by nothing else.
pub trait Sealed {}

impl<T, E> Sealed for Result<T, E> {}

impl<T> Sealed for Option<T> {}

} // verus!
