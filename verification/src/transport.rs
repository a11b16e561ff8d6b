//! The trusted boundary: the one-shot transport and the worker pool. Each
//! function here is believed, not proved; its doc comment names the outside
//! functions it relies on.

use vstd::prelude::*;
use vstd::pervasive::arbitrary;
use std::sync::mpsc::{Receiver, Sender, channel};
use threadpool::ThreadPool;
use crate::future::Future;
use crate::value::{Async, Outcome, outcomes_of};

verus! {

#[verifier::external_type_specification]
#[verifier::external_body]
#[verifier::reject_recursive_types(T)]
pub struct ExReceiver<T>(Receiver<T>);

/// The consuming end of one one-shot channel of `Async` values. It is held
/// opaquely because the carried type mentions `Future`, which in turn holds
/// this struct.
#[verifier::external_body]
#[verifier::reject_recursive_types(T)]
#[verifier::reject_recursive_types(E)]
pub struct OneShot<T, E> {
    rx: Receiver<Async<T, E>>,
}

/// The producing end of one one-shot channel of `Async` values, held by a
/// `Promise` so that the channel stays open; the minimal core never writes
/// to it.
#[verifier::external_body]
#[verifier::reject_recursive_types(T)]
#[verifier::reject_recursive_types(E)]
pub struct Transmitter<T, E> {
    tx: Sender<Async<T, E>>,
}

/// Relies on `std::sync::mpsc::channel` and `Sender::send`: a one-shot
/// channel delivers to its consuming end exactly the one value sent on its
/// producing end, here sent synchronously before the handle is returned.
#[verifier::external_body]
pub(crate) fn fresh_settled<T, E>(a: Async<T, E>) -> (f: Future<T, E>)
    where T: Send + 'static, E: Send + 'static,
    ensures
        f@ == outcomes_of(a),
{
    let (tx, rx) = channel();
    let _ = tx.send(a);
    Future { chan: OneShot { rx }, may: Ghost(arbitrary()) }
}

/// Relies on `threadpool::ThreadPool::{new, execute}` and
/// `std::sync::mpsc::{channel, Sender::send}`: the submitted task runs to
/// completion exactly once on a worker thread (the worker survives this
/// function returning and dropping the pool handle), and the channel delivers
/// exactly the value the task sends, which is the task's own result. So every
/// outcome the handle may deliver traces to a possible result of the task.
#[verifier::external_body]
pub(crate) fn spawn_task<T, E, F>(task: F) -> (f: Future<T, E>)
    where
        T: Send + 'static,
        E: Send + 'static,
        F: FnOnce() -> Async<T, E> + Send + 'static,
    requires
        call_requires(task, ()),
    ensures
        forall|o: Outcome<T, E>| f@.contains(o) ==> exists|a: Async<T, E>|
            #[trigger] call_ensures(task, (), a) && outcomes_of(a).contains(o),
{
    let (tx, rx) = channel();
    let pool = ThreadPool::new(1);
    pool.execute(move || { let _ = tx.send(task()); });
    Future { chan: OneShot { rx }, may: Ghost(arbitrary()) }
}

/// Relies on `std::sync::mpsc::channel`: a fresh linked pair whose producing
/// end is retained and never written here. Nothing is promised of what the
/// consuming end may deliver, so every outcome is possible.
#[verifier::external_body]
pub(crate) fn fresh_pending<T, E>() -> (r: (Transmitter<T, E>, Future<T, E>))
    where T: Send + 'static, E: Send + 'static,
    ensures
        forall|o: Outcome<T, E>| #[trigger] r.1@.contains(o),
{
    let (tx, rx) = channel();
    (Transmitter { tx }, Future { chan: OneShot { rx }, may: Ghost(arbitrary()) })
}

/// Relies on `std::sync::mpsc::Receiver`: adopting a caller-supplied
/// consuming end. Nothing is known of the producing side, so every outcome
/// is possible.
#[verifier::external_body]
pub(crate) fn adopt_async_receiver<T, E>(receiver: Receiver<Async<T, E>>) -> (f: Future<T, E>)
    where T: Send + 'static, E: Send + 'static,
    ensures
        forall|o: Outcome<T, E>| #[trigger] f@.contains(o),
{
    Future { chan: OneShot { rx: receiver }, may: Ghost(arbitrary()) }
}

/// Relies on `threadpool::ThreadPool::{new, execute}` and
/// `std::sync::mpsc::{channel, Sender::send, Receiver::recv}`: a worker
/// thread blocks on the raw consuming end and forwards whatever raw value
/// arrives wrapped as a success, so only success outcomes are possible. A raw
/// channel that closes without delivering aborts the worker loudly.
#[verifier::external_body]
pub(crate) fn adopt_value_receiver<T, E>(receiver: Receiver<T>) -> (f: Future<T, E>)
    where T: Send + 'static, E: Send + 'static,
    ensures
        forall|o: Outcome<T, E>| f@.contains(o) ==> o is Done,
{
    let (tx, rx) = channel();
    let pool = ThreadPool::new(1);
    pool.execute(move || {
        let v = receiver.recv().expect("raw channel closed before delivering a value");
        let _ = tx.send(Async::Done(v));
    });
    Future { chan: OneShot { rx }, may: Ghost(arbitrary()) }
}

/// Relies on `std::sync::mpsc::Receiver::recv`: the value received is one the
/// producing side sent, and the handle's model admits every outcome the
/// producing side may send, so what arrives stands only for admitted
/// outcomes. A producer dropped without sending aborts the awaiting thread
/// loudly, mirroring the transport-failure policy.
#[verifier::external_body]
pub(crate) fn recv_step<T, E>(f: Future<T, E>) -> (a: Async<T, E>)
    where T: Send + 'static, E: Send + 'static,
    ensures
        outcomes_of(a).subset_of(f@),
{
    f.chan.rx.recv().expect("channel closed before delivering a value")
}

/// Relies on `std::sync::mpsc::Receiver::recv`, iterated: block until a value
/// arrives and keep unwrapping `Continue` layers until a terminal value is
/// reached. Each received value stands only for outcomes its handle's model
/// admits, and unwrapping moves to a handle whose model is contained in the
/// current one, so the terminal result stands only for admitted outcomes.
/// The unwrapping has no depth bound by design; the verified loop in
/// `Future::resolve` handles every chain a real execution can produce, and
/// this continues identically past that loop's finite budget.
#[verifier::external_body]
pub(crate) fn recv_terminal<T, E>(f: Future<T, E>) -> (a: Async<T, E>)
    where T: Send + 'static, E: Send + 'static,
    ensures
        !(a is Continue),
        outcomes_of(a).subset_of(f@),
{
    let mut rx = f.chan.rx;
    loop {
        match rx.recv().expect("channel closed before delivering a value") {
            Async::Continue(next) => { rx = next.chan.rx; },
            a => { return a; },
        }
    }
}

} // verus!
