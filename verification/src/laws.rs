//! The composition laws, stated over the contracts of the constructors,
//! the combinators and `resolve`: each proof function's hypotheses are
//! exactly what those contracts give, so the law holds of every run.

use vstd::prelude::*;
use crate::future::{Future, chain_outcome, map_outcome};
use crate::value::{Async, Outcome, outcomes_of};

verus! {

/// Resolving a future built from an immediate value yields exactly that
/// value: if `f` is as `unit(t)` makes it and `a` is as `resolve(f)` returns
/// it, then `a` is `Done(t)`.
pub proof fn lemma_resolve_unit<T, E>(t: T, f: Future<T, E>, a: Async<T, E>)
    requires
        f@ == Set::<Outcome<T, E>>::empty().insert(Outcome::Done(t)),
        !(a is Continue),
        forall|o: Outcome<T, E>| outcomes_of(a).contains(o) ==> f@.contains(o),
    ensures
        a == Async::<T, E>::Done(t),
{
    match a {
        Async::Done(v) => {
            assert(outcomes_of(a).contains(Outcome::<T, E>::Done(v)));
        },
        Async::Failed(e) => {
            assert(outcomes_of(a).contains(Outcome::<T, E>::Failed(e)));
        },
        Async::Continue(_) => {},
    }
}

/// Resolving a future built from an immediate error yields exactly that
/// error: if `f` is as `err(e)` makes it and `a` is as `resolve(f)` returns
/// it, then `a` is `Failed(e)`.
pub proof fn lemma_resolve_err<T, E>(e: E, f: Future<T, E>, a: Async<T, E>)
    requires
        f@ == Set::<Outcome<T, E>>::empty().insert(Outcome::Failed(e)),
        !(a is Continue),
        forall|o: Outcome<T, E>| outcomes_of(a).contains(o) ==> f@.contains(o),
    ensures
        a == Async::<T, E>::Failed(e),
{
    match a {
        Async::Done(v) => {
            assert(outcomes_of(a).contains(Outcome::<T, E>::Done(v)));
        },
        Async::Failed(v) => {
            assert(outcomes_of(a).contains(Outcome::<T, E>::Failed(v)));
        },
        Async::Continue(_) => {},
    }
}

/// Functor law: mapping `f` over a future of an immediate value `t` and
/// resolving yields `Done(s)` where `s` is a result of `f` on `t` — for a
/// deterministic `f`, exactly `Done(f(t))`. The hypotheses are what
/// `unit(t)`, `map` and `resolve` ensure.
pub proof fn lemma_map_unit<T, E, S, F: FnOnce(T) -> S>(
    t: T,
    f: F,
    m: Future<S, E>,
    a: Async<S, E>,
)
    requires
        forall|o: Outcome<S, E>| m@.contains(o) ==> map_outcome(
            Set::<Outcome<T, E>>::empty().insert(Outcome::Done(t)),
            f,
            o,
        ),
        !(a is Continue),
        forall|o: Outcome<S, E>| outcomes_of(a).contains(o) ==> m@.contains(o),
    ensures
        a matches Async::Done(s) && call_ensures(f, (t,), s),
{
    let up = Set::<Outcome<T, E>>::empty().insert(Outcome::<T, E>::Done(t));
    match a {
        Async::Done(s) => {
            assert(outcomes_of(a).contains(Outcome::<S, E>::Done(s)));
            assert(map_outcome(up, f, Outcome::<S, E>::Done(s)));
        },
        Async::Failed(e) => {
            assert(outcomes_of(a).contains(Outcome::<S, E>::Failed(e)));
            assert(map_outcome(up, f, Outcome::<S, E>::Failed(e)));
        },
        Async::Continue(_) => {},
    }
}

/// Left-zero law: mapping over a future of an immediate error yields that
/// error unchanged. Nothing at all is assumed of the transformation — not
/// even that it can be called — which is the spec-level face of "the
/// transformation is never invoked".
pub proof fn lemma_map_err_short_circuit<T, E, S, F: FnOnce(T) -> S>(
    e: E,
    f: F,
    m: Future<S, E>,
    a: Async<S, E>,
)
    requires
        forall|o: Outcome<S, E>| m@.contains(o) ==> map_outcome(
            Set::<Outcome<T, E>>::empty().insert(Outcome::Failed(e)),
            f,
            o,
        ),
        !(a is Continue),
        forall|o: Outcome<S, E>| outcomes_of(a).contains(o) ==> m@.contains(o),
    ensures
        a == Async::<S, E>::Failed(e),
{
    let up = Set::<Outcome<T, E>>::empty().insert(Outcome::<T, E>::Failed(e));
    match a {
        Async::Done(s) => {
            assert(outcomes_of(a).contains(Outcome::<S, E>::Done(s)));
            assert(map_outcome(up, f, Outcome::<S, E>::Done(s)));
        },
        Async::Failed(v) => {
            assert(outcomes_of(a).contains(Outcome::<S, E>::Failed(v)));
            assert(map_outcome(up, f, Outcome::<S, E>::Failed(v)));
        },
        Async::Continue(_) => {},
    }
}

/// Chaining law: chaining `g` onto a future of an immediate value `t`, where
/// every result of `g` on `t` is `Done(s)`, resolves to exactly `Done(s)`.
/// The hypotheses are what `unit(t)`, `and_then` and `resolve` ensure.
pub proof fn lemma_chain_unit<T, E, S, F: FnOnce(T) -> Async<S, E>>(
    t: T,
    s: S,
    g: F,
    r: Future<S, E>,
    a: Async<S, E>,
)
    requires
        forall|a2: Async<S, E>| call_ensures(g, (t,), a2) ==> a2 == Async::<S, E>::Done(s),
        forall|o: Outcome<S, E>| r@.contains(o) ==> chain_outcome(
            Set::<Outcome<T, E>>::empty().insert(Outcome::Done(t)),
            g,
            o,
        ),
        !(a is Continue),
        forall|o: Outcome<S, E>| outcomes_of(a).contains(o) ==> r@.contains(o),
    ensures
        a == Async::<S, E>::Done(s),
{
    lemma_chain_terminal(t, s, g, r, a);
}

/// Flattening law: chaining `g` onto a future of an immediate value `t`,
/// where every result of `g` on `t` is `Continue(p)` for a nested pending
/// value that can only deliver `Done(s)`, still resolves to exactly
/// `Done(s)`: the consumer unwraps the nesting. Nested pending values model
/// any depth — a `p` built this same way stands for two levels — so the law
/// holds past one level of wrapping.
pub proof fn lemma_chain_flattens<T, E, S, F: FnOnce(T) -> Async<S, E>>(
    t: T,
    s: S,
    g: F,
    r: Future<S, E>,
    a: Async<S, E>,
)
    requires
        forall|a2: Async<S, E>| #[trigger] call_ensures(g, (t,), a2) ==> (a2 matches
            Async::Continue(p)
            && p@ == Set::<Outcome<S, E>>::empty().insert(Outcome::Done(s))),
        forall|o: Outcome<S, E>| r@.contains(o) ==> chain_outcome(
            Set::<Outcome<T, E>>::empty().insert(Outcome::Done(t)),
            g,
            o,
        ),
        !(a is Continue),
        forall|o: Outcome<S, E>| outcomes_of(a).contains(o) ==> r@.contains(o),
    ensures
        a == Async::<S, E>::Done(s),
{
    lemma_chain_terminal(t, s, g, r, a);
}

/// Both chaining laws come down to this: if every result of `g` on `t`
/// stands only for the outcome `Done(s)` — whether it is `Done(s)` itself or
/// a `Continue` whose nested pending value can only deliver `Done(s)` — then
/// the chain resolves to exactly `Done(s)`.
pub proof fn lemma_chain_terminal<T, E, S, F: FnOnce(T) -> Async<S, E>>(
    t: T,
    s: S,
    g: F,
    r: Future<S, E>,
    a: Async<S, E>,
)
    requires
        forall|a2: Async<S, E>| #[trigger] call_ensures(g, (t,), a2) ==> outcomes_of(a2)
            == Set::<Outcome<S, E>>::empty().insert(Outcome::Done(s)),
        forall|o: Outcome<S, E>| r@.contains(o) ==> chain_outcome(
            Set::<Outcome<T, E>>::empty().insert(Outcome::Done(t)),
            g,
            o,
        ),
        !(a is Continue),
        forall|o: Outcome<S, E>| outcomes_of(a).contains(o) ==> r@.contains(o),
    ensures
        a == Async::<S, E>::Done(s),
{
    let up = Set::<Outcome<T, E>>::empty().insert(Outcome::<T, E>::Done(t));
    match a {
        Async::Done(v) => {
            assert(outcomes_of(a).contains(Outcome::<S, E>::Done(v)));
            assert(chain_outcome(up, g, Outcome::<S, E>::Done(v)));
        },
        Async::Failed(v) => {
            assert(outcomes_of(a).contains(Outcome::<S, E>::Failed(v)));
            assert(chain_outcome(up, g, Outcome::<S, E>::Failed(v)));
        },
        Async::Continue(_) => {},
    }
}

} // verus!
