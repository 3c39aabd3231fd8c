//! One vocabulary for carriers that hold either a success payload or a failure.
//!
//! `Result` and `Option` each come with their own "give me the value or stop
//! here" operation. [`Unwrappable`] names that operation once, so that generic
//! code can ask for "something a value can be extracted from" without caring
//! which of the two shapes it was handed.
//!
//! Extraction from a failed carrier is terminal: it does not return. Verified
//! callers therefore have to show that the carrier succeeded before they
//! extract, and in exchange learn exactly which value comes out.

use vstd::prelude::*;

verus! {

/// A carrier from which a success payload of type `T` can be extracted.
pub trait Unwrappable<T>: Sized {
    /// Whether the carrier is in its success variant.
    spec fn is_success(&self) -> bool;

    /// The payload of a carrier in its success variant. Of a failed carrier it
    /// says nothing.
    spec fn payload(&self) -> T;

    /// Consumes the carrier and returns its payload.
    ///
    /// A failed carrier makes this stop the program instead of returning, so
    /// the precondition leaves failed carriers out.
    fn unwrap(s: Self) -> (v: T)
        requires
            s.is_success(),
        ensures
            v == s.payload(),
    ;
}

/// Value-or-error: `Ok` is the success variant. The error has to be printable,
/// since it is what the failure report shows.
impl<T, E> Unwrappable<T> for Result<T, E> where E: core::fmt::Debug {
    open spec fn is_success(&self) -> bool {
        self is Ok
    }

    open spec fn payload(&self) -> T {
        self->Ok_0
    }

    fn unwrap(s: Self) -> (v: T) {
        Result::unwrap(s)
    }
}

/// Value-or-absent: `Some` is the success variant.
impl<T> Unwrappable<T> for Option<T> {
    open spec fn is_success(&self) -> bool {
        self is Some
    }

    open spec fn payload(&self) -> T {
        self->Some_0
    }

    fn unwrap(s: Self) -> (v: T) {
        Option::unwrap(s)
    }
}

} // verus!
