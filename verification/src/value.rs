//! The tri-state result value that composition works on, and the spec-level
//! model of a terminal outcome.

use vstd::prelude::*;
use vstd::pervasive::unreached;
use crate::future::Future;

verus! {

/// Spec-level model of a terminal outcome: what a pending value finally
/// delivers once every `Continue` wrapping has been unwound.
pub enum Outcome<T, E> {
    Done(T),
    Failed(E),
}

/// Asynchronous version of `Result<T, E>` that allows for future composition:
/// a terminal success, a terminal failure, or a further pending computation.
#[verifier::reject_recursive_types(T)]
#[verifier::reject_recursive_types(E)]
pub enum Async<T, E> {
    Done(T),
    Failed(E),
    Continue(Future<T, E>),
}

/// The set of terminal outcomes an `Async` value may stand for: a terminal
/// variant stands for itself, and a `Continue` stands for whatever its nested
/// pending value may deliver.
pub open spec fn outcomes_of<T, E>(a: Async<T, E>) -> Set<Outcome<T, E>> {
    match a {
        Async::Done(t) => Set::empty().insert(Outcome::Done(t)),
        Async::Failed(e) => Set::empty().insert(Outcome::Failed(e)),
        Async::Continue(f) => f@,
    }
}

impl<T, E> Async<T, E> {
    /// Transform the success value. `Continue` is a contract violation here:
    /// what value would be mapped is undefined before the nested computation
    /// is resolved, so that input is excluded and the future-aware
    /// `Future::map` must be used instead.
    pub fn map<U, F: FnOnce(T) -> U>(self, f: F) -> (r: Async<U, E>)
        requires
            !(self is Continue),
            self matches Async::Done(t) ==> call_requires(f, (t,)),
        ensures
            self matches Async::Done(t) ==> (r matches Async::Done(u)
                && call_ensures(f, (t,), u)),
            self matches Async::Failed(e) ==> r == Async::<U, E>::Failed(e),
    {
        match self {
            Async::Done(t) => Async::Done(f(t)),
            Async::Failed(e) => Async::Failed(e),
            Async::Continue(_) => unreached(),
        }
    }

    /// Transform the failure value; symmetric to `map`, and `Continue` is
    /// likewise excluded.
    pub fn map_err<U, F: FnOnce(E) -> U>(self, f: F) -> (r: Async<T, U>)
        requires
            !(self is Continue),
            self matches Async::Failed(e) ==> call_requires(f, (e,)),
        ensures
            self matches Async::Done(t) ==> r == Async::<T, U>::Done(t),
            self matches Async::Failed(e) ==> (r matches Async::Failed(u)
                && call_ensures(f, (e,), u)),
    {
        match self {
            Async::Done(t) => Async::Done(t),
            Async::Failed(e) => Async::Failed(f(e)),
            Async::Continue(_) => unreached(),
        }
    }

    pub fn is_err(&self) -> (r: bool)
        ensures
            r == (self is Failed),
    {
        match self {
            Async::Failed(_) => true,
            _ => false,
        }
    }

    pub fn is_future(&self) -> (r: bool)
        ensures
            r == (self is Continue),
    {
        match self {
            Async::Continue(_) => true,
            _ => false,
        }
    }

    pub fn is_ok(&self) -> (r: bool)
        ensures
            r == (self is Done),
    {
        match self {
            Async::Done(_) => true,
            _ => false,
        }
    }
}

} // verus!
