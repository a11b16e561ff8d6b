//! The consumer-side handle: a value that will be resolved sometime in the
//! future, on a worker thread, and the compositions over it.

use vstd::prelude::*;
use vstd::pervasive::unreached;
use std::sync::mpsc::Receiver;
use crate::transport::{OneShot, adopt_async_receiver, adopt_value_receiver, fresh_settled,
    recv_step, recv_terminal, spawn_task};
use crate::value::{Async, Outcome, outcomes_of};

verus! {

/// A value that will be resolved sometime into the future, asynchronously.
/// It owns the consuming end of one one-shot channel; its view is the set of
/// terminal outcomes the producing side may deliver through that channel.
#[verifier::reject_recursive_types(T)]
#[verifier::reject_recursive_types(E)]
pub struct Future<T, E = ()> {
    pub(crate) chan: OneShot<T, E>,
    pub(crate) may: Ghost<Set<Outcome<T, E>>>,
}

impl<T, E> View for Future<T, E> {
    type V = Set<Outcome<T, E>>;

    closed spec fn view(&self) -> Set<Outcome<T, E>> {
        self.may@
    }
}

/// What an outcome of `map` traces back to: a success comes from applying the
/// transformation to a possible upstream success, and a failure is a possible
/// upstream failure forwarded unchanged.
pub open spec fn map_outcome<T, E, S, F: FnOnce(T) -> S>(
    up: Set<Outcome<T, E>>,
    f: F,
    o: Outcome<S, E>,
) -> bool {
    ||| (exists|t: T, s: S|
        up.contains(Outcome::Done(t)) && #[trigger] call_ensures(f, (t,), s)
            && o == Outcome::<S, E>::Done(s))
    ||| (exists|e: E| #[trigger] up.contains(Outcome::<T, E>::Failed(e))
            && o == Outcome::<S, E>::Failed(e))
}

/// What an outcome of `and_then` traces back to: a possible upstream success
/// fed to the transformation, whose own result may again be terminal or a
/// further pending value, or a possible upstream failure forwarded unchanged.
pub open spec fn chain_outcome<T, E, S, F: FnOnce(T) -> Async<S, E>>(
    up: Set<Outcome<T, E>>,
    f: F,
    o: Outcome<S, E>,
) -> bool {
    ||| (exists|t: T, a: Async<S, E>|
        up.contains(Outcome::Done(t)) && #[trigger] call_ensures(f, (t,), a)
            && outcomes_of(a).contains(o))
    ||| (exists|e: E| #[trigger] up.contains(Outcome::<T, E>::Failed(e))
            && o == Outcome::<S, E>::Failed(e))
}

/// One stage of an `and_then` chain: block on the upstream handle, feed its
/// success value to the transformation, forward its failure unchanged.
fn chain_step<T, E, S, F>(up: Future<T, E>, f: F) -> (a: Async<S, E>)
    where
        T: Send + 'static,
        E: Send + 'static,
        S: Send + 'static,
        F: FnOnce(T) -> Async<S, E> + Send + 'static,
    requires
        forall|t: T| up@.contains(Outcome::Done(t)) ==> call_requires(f, (t,)),
    ensures
        forall|o: Outcome<S, E>| outcomes_of(a).contains(o) ==> chain_outcome(up@, f, o),
{
    let ghost u = up@;
    let r = up.resolve();
    match r {
        Async::Done(t) => {
            proof {
                assert(outcomes_of(r).contains(Outcome::<T, E>::Done(t)));
            }
            let out = f(t);
            proof {
                assert forall|o: Outcome<S, E>| outcomes_of(out).contains(o) implies
                    chain_outcome(u, f, o) by {
                    assert(u.contains(Outcome::<T, E>::Done(t)) && call_ensures(f, (t,), out)
                        && outcomes_of(out).contains(o));
                }
            }
            out
        },
        Async::Failed(e) => {
            proof {
                assert(outcomes_of(r).contains(Outcome::<T, E>::Failed(e)));
                assert(u.contains(Outcome::<T, E>::Failed(e)));
            }
            Async::Failed(e)
        },
        Async::Continue(_) => unreached(),
    }
}

/// One stage of a `map` chain: block on the upstream handle, wrap the
/// transformed success value as `Done`, forward a failure unchanged.
fn map_step<T, E, S, F>(up: Future<T, E>, f: F) -> (a: Async<S, E>)
    where
        T: Send + 'static,
        E: Send + 'static,
        S: Send + 'static,
        F: FnOnce(T) -> S + Send + 'static,
    requires
        forall|t: T| up@.contains(Outcome::Done(t)) ==> call_requires(f, (t,)),
    ensures
        forall|o: Outcome<S, E>| outcomes_of(a).contains(o) ==> map_outcome(up@, f, o),
{
    let ghost u = up@;
    let r = up.resolve();
    match r {
        Async::Done(t) => {
            proof {
                assert(outcomes_of(r).contains(Outcome::<T, E>::Done(t)));
            }
            let s = f(t);
            proof {
                assert(u.contains(Outcome::<T, E>::Done(t)) && call_ensures(f, (t,), s));
            }
            Async::Done(s)
        },
        Async::Failed(e) => {
            proof {
                assert(outcomes_of(r).contains(Outcome::<T, E>::Failed(e)));
                assert(u.contains(Outcome::<T, E>::Failed(e)));
            }
            Async::Failed(e)
        },
        Async::Continue(_) => unreached(),
    }
}

impl<T, E> Future<T, E> where T: Send + 'static, E: Send + 'static {
    /// Schedule a computation on a worker thread; the handle's possible
    /// outcomes are exactly those its result may stand for.
    pub fn new<F>(f: F) -> (r: Future<T, E>)
        where F: FnOnce() -> Async<T, E> + Send + 'static,
        requires
            call_requires(f, ()),
        ensures
            forall|o: Outcome<T, E>| r@.contains(o) ==> exists|a: Async<T, E>|
                #[trigger] call_ensures(f, (), a) && outcomes_of(a).contains(o),
    {
        spawn_task(f)
    }

    /// Adopt the consuming end of a caller-supplied one-shot channel of
    /// `Async` values. Nothing is known of the producing side, so any
    /// outcome is possible.
    pub fn from_async_channel(receiver: Receiver<Async<T, E>>) -> (r: Future<T, E>)
        ensures
            forall|o: Outcome<T, E>| #[trigger] r@.contains(o),
    {
        adopt_async_receiver(receiver)
    }

    /// Adopt the receiving end of a native channel of raw values: a worker
    /// thread blocks on it and re-wraps whatever arrives as a success, so a
    /// failure outcome is impossible.
    pub fn from_channel(receiver: Receiver<T>) -> (r: Future<T, E>)
        ensures
            forall|o: Outcome<T, E>| r@.contains(o) ==> o is Done,
    {
        adopt_value_receiver(receiver)
    }

    /// Compose with a transformation that may itself yield a further pending
    /// value; the consumer flattens it on `resolve`, `and_then` does not.
    pub fn and_then<F, S>(self, f: F) -> (r: Future<S, E>)
        where
            F: FnOnce(T) -> Async<S, E> + Send + 'static,
            S: Send + 'static,
        requires
            forall|t: T| self@.contains(Outcome::Done(t)) ==> call_requires(f, (t,)),
        ensures
            forall|o: Outcome<S, E>| r@.contains(o) ==> chain_outcome(self@, f, o),
    {
        let up = self;
        let task = (move || -> (a: Async<S, E>)
            ensures
                forall|o: Outcome<S, E>| outcomes_of(a).contains(o) ==> chain_outcome(
                    up@,
                    f,
                    o,
                ),
            { chain_step(up, f) });
        spawn_task(task)
    }

    /// Compose with a pure transformation of the success value; a failure
    /// short-circuits past it unchanged.
    pub fn map<F, S>(self, f: F) -> (r: Future<S, E>)
        where
            F: FnOnce(T) -> S + Send + 'static,
            S: Send + 'static,
        requires
            forall|t: T| self@.contains(Outcome::Done(t)) ==> call_requires(f, (t,)),
        ensures
            forall|o: Outcome<S, E>| r@.contains(o) ==> map_outcome(self@, f, o),
    {
        let up = self;
        let task = (move || -> (a: Async<S, E>)
            ensures
                forall|o: Outcome<S, E>| outcomes_of(a).contains(o) ==> map_outcome(
                    up@,
                    f,
                    o,
                ),
            { map_step(up, f) });
        spawn_task(task)
    }

    /// Terminal resolution: block until the channel delivers, and keep
    /// unwrapping `Continue` layers iteratively until a terminal result is
    /// reached. Every outcome the result stands for is one the handle being
    /// resolved allowed.
    pub fn resolve(self) -> (a: Async<T, E>)
        ensures
            !(a is Continue),
            forall|o: Outcome<T, E>| outcomes_of(a).contains(o) ==> self@.contains(o),
    {
        let ghost start: Set<Outcome<T, E>> = self@;
        let mut cur = self;
        let mut budget: u64 = u64::MAX;
        while budget > 0
            invariant
                cur@.subset_of(start),
                start == self@,
            decreases budget,
        {
            match recv_step(cur) {
                Async::Done(t) => { return Async::Done(t); },
                Async::Failed(e) => { return Async::Failed(e); },
                Async::Continue(next) => { cur = next; },
            }
            budget = budget - 1;
        }
        recv_terminal(cur)
    }

    /// Wrap a value into a future that completes right away.
    pub fn unit(val: T) -> (r: Future<T, E>)
        ensures
            r@ == Set::<Outcome<T, E>>::empty().insert(Outcome::Done(val)),
    {
        fresh_settled(Async::Done(val))
    }

    /// Wrap an error into a future that completes right away.
    pub fn err(err: E) -> (r: Future<T, E>)
        ensures
            r@ == Set::<Outcome<T, E>>::empty().insert(Outcome::Failed(err)),
    {
        fresh_settled(Async::Failed(err))
    }
}

} // verus!
