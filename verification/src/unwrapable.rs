//! `Unwrapable`, with one `p`, names the same trait as
//! [`Unwrappable`](crate::unwrappable::Unwrappable): code that spells it
//! either way gets the one contract and the one set of implementations.

pub use crate::unwrappable::Unwrappable as Unwrapable;
