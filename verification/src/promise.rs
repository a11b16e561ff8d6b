//! The producer-side handle: a promise that can mint exactly one paired
//! pending value.

use vstd::prelude::*;
use vstd::pervasive::unreached;
use crate::future::Future;
use crate::transport::{Transmitter, fresh_pending};
use crate::value::Outcome;

verus! {

/// Introspection state of a promise; the minimal core never moves it past
/// `Waiting`, since resolving a promise is left as a future extension.
pub enum PromiseState {
    Waiting,
    Resolved,
    Failed,
}

/// Owns the producing end of a one-shot channel and holds the single paired
/// consuming handle until it is minted. Minting a second time is a contract
/// violation: there is nothing left to hand out.
#[verifier::reject_recursive_types(T)]
#[verifier::reject_recursive_types(E)]
pub struct Promise<T, E = ()> {
    sender: Transmitter<T, E>,
    rx: Option<Future<T, E>>,
    state: PromiseState,
}

impl<T, E> Promise<T, E> where T: Send + 'static, E: Send + 'static {
    /// Whether the single paired pending value is still here to be minted.
    pub closed spec fn can_mint(&self) -> bool {
        self.rx is Some
    }

    /// The model of the pending value waiting to be minted.
    pub closed spec fn pending(&self) -> Set<Outcome<T, E>> {
        self.rx->Some_0@
    }

    /// A fresh promise over a fresh one-shot channel, still waiting, with its
    /// single pending value not yet minted. Nothing constrains what that
    /// value may deliver.
    pub fn new() -> (p: Promise<T, E>)
        ensures
            p.can_mint(),
            forall|o: Outcome<T, E>| #[trigger] p.pending().contains(o),
    {
        let (tx, f) = fresh_pending();
        Promise { sender: tx, rx: Some(f), state: PromiseState::Waiting }
    }

    /// Hand out the single paired pending value, consuming it; minting twice
    /// is excluded, and a caller that does it anyway fails loudly.
    pub fn future(&mut self) -> (f: Future<T, E>)
        requires
            old(self).can_mint(),
        ensures
            !final(self).can_mint(),
            f@ == old(self).pending(),
    {
        match self.rx.take() {
            Some(f) => f,
            None => unreached(),
        }
    }
}

} // verus!
