//! A lightweight futures library: a tri-state result `Async<T, E>` — an
//! asynchronous equivalent of `Result<T, E>` whose extra variant
//! `Continue(Future<T, E>)` allows composition — together with a
//! future/promise pair that carries such results from worker threads over
//! one-shot channels.

mod future;
mod laws;
mod promise;
mod transport;
mod value;

pub use future::{Future, chain_outcome, map_outcome};
pub use laws::{lemma_chain_flattens, lemma_chain_terminal, lemma_chain_unit,
    lemma_map_err_short_circuit, lemma_map_unit, lemma_resolve_err, lemma_resolve_unit};
pub use promise::{Promise, PromiseState};
pub use value::{Async, Outcome, outcomes_of};
pub use value::Async::Continue;
