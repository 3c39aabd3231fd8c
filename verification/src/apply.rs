//! Method chaining for operations that only borrow their receiver.
//!
//! Many container operations mutate in place and hand back nothing, or a
//! by-product such as the entry they displaced. That rules out building a
//! value in one expression:
//!
//! ```text
//! let mut map = HashMap::new();
//! map.insert("hello", "world");
//! map.insert("animal", "farm");
//! ```
//!
//! [`Apply`] takes the receiver by value, lends it to a callback, and gives it
//! back, so the same thing reads
//!
//! ```text
//! let map = HashMap::new()
//!     .apply(|m| m.insert("hello", "world"))
//!     .apply(|m| m.insert("animal", "farm"));
//! ```
//!
//! # How the contracts read
//!
//! A callback `f` of type `FnOnce(&mut T) -> A` is described by what it does
//! to an exclusive borrow `m: &mut T`. `*m` is what the borrowed place holds
//! when `f` starts, `*final(m)` what it holds when the borrow ends, and
//! `call_ensures(f, (m,), out)` says that a run of `f` on `m` may return
//! `out`. The phrase
//!
//! ```text
//! exists|m: &mut T| *m == before && call_ensures(f, (m,), out) && *final(m) == after
//! ```
//!
//! therefore reads: one run of `f` on a receiver that holds `before` may leave
//! it holding `after` and return `out`. Each operation below promises exactly
//! that of its result, and the laws at the end of the file are stated in the
//! same terms.

use vstd::prelude::*;
use crate::unwrappable::Unwrappable;

verus! {

/// The callback `f` may be run on a receiver that holds `v`: every exclusive
/// borrow whose place holds `v` meets its precondition.
pub open spec fn callable_on<T, A, F: FnOnce(&mut T) -> A>(f: F, v: T) -> bool {
    forall|m: &mut T| *m == v ==> call_requires(f, (m,))
}

/// Whatever a run of `f` on a receiver that holds `v` returns is a carrier in
/// its success variant.
pub open spec fn succeeds_on<T, V, U: Unwrappable<V>, F: FnOnce(&mut T) -> U>(f: F, v: T) -> bool {
    forall|m: &mut T, out: U| *m == v && call_ensures(f, (m,), out) ==> out.is_success()
}

/// Chaining for callbacks that take their receiver by exclusive borrow.
///
/// Every sized type has these three operations. Each takes the receiver by
/// value, runs the callback once on an exclusive borrow of it, and returns the
/// receiver as the callback left it. Nothing else touches the receiver: it is
/// neither copied nor kept.
pub trait Apply: Sized {
    /// Runs `f` on the receiver and returns the receiver together with what
    /// `f` returned, in that order: the receiver first, the by-product second.
    fn apply_keep<A, F: FnOnce(&mut Self) -> A>(self, f: F) -> (r: (Self, A))
        requires
            callable_on(f, self),
        ensures
            exists|m: &mut Self| *m == self && call_ensures(f, (m,), r.1) && *final(m) == r.0,
    {
        let mut this = self;
        let tmp = f(&mut this);
        (this, tmp)
    }

    /// Runs `f` on the receiver and returns the receiver. What `f` returned is
    /// dropped.
    fn apply<A, F: FnOnce(&mut Self) -> A>(self, f: F) -> (r: Self)
        requires
            callable_on(f, self),
        ensures
            exists|m: &mut Self, out: A|
                *m == self && call_ensures(f, (m,), out) && *final(m) == r,
    {
        let mut this = self;
        f(&mut this);
        this
    }

    /// Runs `f` on the receiver, extracts the payload from the carrier that
    /// `f` returned, drops the payload and returns the receiver.
    ///
    /// Extraction from a failed carrier does not return, so the callback has
    /// to be one that succeeds on this receiver.
    fn apply_unwrap<T, U: Unwrappable<T>, F: FnOnce(&mut Self) -> U>(self, f: F) -> (r: Self)
        requires
            callable_on(f, self),
            succeeds_on(f, self),
        ensures
            exists|m: &mut Self, out: U|
                *m == self && call_ensures(f, (m,), out) && out.is_success() && *final(m) == r,
    {
        let mut this = self;
        Unwrappable::unwrap(f(&mut this));
        this
    }
}

impl<T: Sized> Apply for T {}

/// A chained `apply` and a direct call agree.
///
/// Take a callback whose effect on its receiver depends on the receiver alone:
/// two runs that start from equal receivers end with equal receivers. Then
/// the receiver that `v.apply(f)` returns (`chained`) is the one that a run of
/// `f` on a scratch copy of `v` leaves in the copy (`scratch`).
pub proof fn lemma_apply_agrees_with_direct_run<T, A, F: FnOnce(&mut T) -> A>(
    f: F,
    v: T,
    chained: T,
    scratch: T,
)
    requires
        forall|m1: &mut T, out1: A, m2: &mut T, out2: A|
            *m1 == *m2 && #[trigger] call_ensures(f, (m1,), out1) && #[trigger] call_ensures(
                f,
                (m2,),
                out2,
            ) ==> *final(m1) == *final(m2),
        exists|m: &mut T, out: A| *m == v && call_ensures(f, (m,), out) && *final(m) == chained,
        exists|m: &mut T, out: A| *m == v && call_ensures(f, (m,), out) && *final(m) == scratch,
    ensures
        chained == scratch,
{
}

/// Two chained calls run in program order.
///
/// Let `mid` be what `v.apply(f1)` returned and `last` what `mid.apply(f2)`
/// returned. Then `last` is what running `f1` and then `f2` in place, on one
/// variable that starts as `v`, leaves in that variable: there are two
/// borrows, the second of which starts from what the first one left.
pub proof fn lemma_chain_of_two_runs_in_order<
    T,
    A1,
    A2,
    F1: FnOnce(&mut T) -> A1,
    F2: FnOnce(&mut T) -> A2,
>(f1: F1, f2: F2, v: T, mid: T, last: T)
    requires
        exists|m: &mut T, out: A1| *m == v && call_ensures(f1, (m,), out) && *final(m) == mid,
        exists|m: &mut T, out: A2| *m == mid && call_ensures(f2, (m,), out) && *final(m) == last,
    ensures
        exists|m1: &mut T, out1: A1, m2: &mut T, out2: A2|
            *m1 == v && call_ensures(f1, (m1,), out1) && *m2 == *final(m1) && call_ensures(
                f2,
                (m2,),
                out2,
            ) && *final(m2) == last,
{
}

/// Two calls in place can be written as a chain.
///
/// `m1` and `m2` are the borrows of running `f1` and then `f2` in place on
/// one variable that starts as `v`. Then what the first borrow left is a
/// receiver that `v.apply(f1)` may return, and what the second borrow left is
/// one that `apply(f2)` may return from it.
pub proof fn lemma_two_in_place_runs_are_a_chain<
    T,
    A1,
    A2,
    F1: FnOnce(&mut T) -> A1,
    F2: FnOnce(&mut T) -> A2,
>(f1: F1, f2: F2, v: T, m1: &mut T, m2: &mut T)
    requires
        *m1 == v,
        exists|out1: A1| call_ensures(f1, (m1,), out1),
        *m2 == *final(m1),
        exists|out2: A2| call_ensures(f2, (m2,), out2),
    ensures
        exists|m: &mut T, out: A1|
            *m == v && call_ensures(f1, (m,), out) && *final(m) == *final(m1),
        exists|m: &mut T, out: A2|
            *m == *final(m1) && call_ensures(f2, (m,), out) && *final(m) == *final(m2),
{
}

/// A chain of any length runs in program order.
///
/// `fs` are the callbacks of a chain `v.apply(fs[0]).apply(fs[1])...` and
/// `states` the receivers along it: `states[0]` is `v` and `states[i + 1]` is
/// what `states[i].apply(fs[i])` returned, by a run of `fs[i]` on the borrow
/// `ms[i]` that returned `outs[i]`. Then these borrows, taken in order, are
/// an in-place run on one variable that starts as `states[0]`: the first
/// borrow starts from `states[0]`, each later one from what the one before it
/// left, and what the last one leaves is the receiver at the end of the chain.
pub proof fn lemma_chain_runs_in_order<T, A, F: FnOnce(&mut T) -> A>(
    fs: Seq<F>,
    states: Seq<T>,
    ms: Seq<&mut T>,
    outs: Seq<A>,
)
    requires
        states.len() == fs.len() + 1,
        ms.len() == fs.len(),
        outs.len() == fs.len(),
        forall|i: int|
            #![trigger ms[i]]
            0 <= i < fs.len() ==> *ms[i] == states[i] && call_ensures(fs[i], (ms[i],), outs[i])
                && *final(ms[i]) == states[i + 1],
    ensures
        forall|i: int|
            #![trigger ms[i]]
            0 <= i < fs.len() ==> call_ensures(fs[i], (ms[i],), outs[i]) && *ms[i] == (if i == 0 {
                states[0]
            } else {
                *final(ms[i - 1])
            }),
        fs.len() > 0 ==> *final(ms[fs.len() - 1]) == states[fs.len() as int],
{
    assert forall|i: int| #![trigger ms[i]] 0 <= i < fs.len() implies *ms[i] == (if i == 0 {
        states[0]
    } else {
        *final(ms[i - 1])
    }) by {
        if i > 0 {
            assert(*final(ms[i - 1]) == states[i - 1 + 1]);
        }
    }
}

/// Running callbacks in place can be written as a chain.
///
/// `ms` are the borrows of an in-place run of `fs` on one variable that
/// starts as `v`, and `outs` what the callbacks returned: the first borrow
/// starts from `v`, each later one from what the one before it left. Then the
/// states that the variable passes through are the receivers along the chain
/// `v.apply(fs[0]).apply(fs[1])...`: the first is `v`, and each later one is
/// what `apply` may return from the one before it, by the same run.
pub proof fn lemma_in_place_runs_are_a_chain<T, A, F: FnOnce(&mut T) -> A>(
    fs: Seq<F>,
    v: T,
    ms: Seq<&mut T>,
    outs: Seq<A>,
)
    requires
        ms.len() == fs.len(),
        outs.len() == fs.len(),
        forall|i: int|
            #![trigger ms[i]]
            0 <= i < fs.len() ==> call_ensures(fs[i], (ms[i],), outs[i]) && *ms[i] == (if i == 0 {
                v
            } else {
                *final(ms[i - 1])
            }),
    ensures
        exists|states: Seq<T>|
            #![trigger states.len()]
            states.len() == fs.len() + 1 && states[0] == v && (forall|i: int|
                #![trigger ms[i]]
                0 <= i < fs.len() ==> *ms[i] == states[i] && call_ensures(
                    fs[i],
                    (ms[i],),
                    outs[i],
                ) && *final(ms[i]) == states[i + 1]),
{
    let states = Seq::new(
        fs.len() + 1,
        |i: int|
            if i == 0 {
                v
            } else {
                *final(ms[i - 1])
            },
    );
    assert(states[0] == v);
    assert forall|i: int| #![trigger ms[i]] 0 <= i < fs.len() implies *ms[i] == states[i]
        && call_ensures(fs[i], (ms[i],), outs[i]) && *final(ms[i]) == states[i + 1] by {
        assert(states[i + 1] == *final(ms[i + 1 - 1]));
    }
    assert(states.len() == fs.len() + 1);
}

} // verus!
