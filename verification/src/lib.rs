//! Small patterns that smooth over recurring frictions of ownership-based
//! code, each with a contract that Verus checks.
//!
//! # `Apply`
//!
//! Operations that take `&mut self` cannot be chained. [`apply::Apply`] gives
//! every sized type three methods that take the receiver by value, lend it to
//! a callback and hand it back:
//!
//! * `apply` drops whatever the callback returned,
//! * `apply_keep` returns it next to the receiver,
//! * `apply_unwrap` insists that it is a success and drops the payload.
//!
//! Each of them promises that its result is what one run of the callback on
//! the receiver leaves behind, and nothing else.
//!
//! # `Unwrappable`
//!
//! [`unwrappable::Unwrappable`] is the one operation that `Result` and
//! `Option` share: take the success payload out, or stop. `apply_unwrap` is
//! written against it, so it works with either carrier.
//!
//! # Importing
//!
//! [`prelude`] re-exports the traits, so that one `use` brings the methods
//! into scope.

pub mod apply;
pub mod prelude;
pub mod unwrapable;
pub mod unwrappable;
