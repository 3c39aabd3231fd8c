//! The traits of this crate, for a single import.

pub use crate::apply::Apply;
pub use crate::unwrapable::Unwrapable;
pub use crate::unwrappable::Unwrappable;
