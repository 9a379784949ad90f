//! Trusted boundary around the task runtime and its channels.
//!
//! The transport talks to its background workers exclusively through
//! unbounded multi-producer single-consumer channels and through task join
//! handles. Those live in an outside crate; each operation the verified code
//! needs is wrapped here with the contract that the outside source supports.
//! Nothing is promised about values whose outcome depends on other threads
//! (what a channel currently holds, whether a task has finished): callers
//! state what holds of every possible outcome.

use vstd::prelude::*;

use tokio::runtime::Runtime;
use tokio::sync::mpsc::{UnboundedReceiver, UnboundedSender};
use tokio::task::JoinHandle;

verus! {

#[verifier::external_type_specification]
#[verifier::external_body]
#[verifier::reject_recursive_types(T)]
pub struct ExUnboundedSender<T>(UnboundedSender<T>);

#[verifier::external_type_specification]
#[verifier::external_body]
#[verifier::reject_recursive_types(T)]
pub struct ExUnboundedReceiver<T>(UnboundedReceiver<T>);

#[verifier::external_type_specification]
#[verifier::external_body]
#[verifier::reject_recursive_types(T)]
pub struct ExJoinHandle<T>(JoinHandle<T>);

#[verifier::external_type_specification]
#[verifier::external_body]
pub struct ExRuntime(Runtime);

#[verifier::external_type_specification]
#[verifier::external_body]
pub struct ExJoinError(tokio::task::JoinError);

/// What polling the consumer end of a channel yielded.
pub enum TryRecvOutcome<T> {
    /// A queued value.
    Item(T),
    /// Nothing queued right now, but producers are still alive.
    Empty,
    /// Nothing queued and every producer is gone.
    Closed,
}

/// Relies on tokio::runtime::Builder::build: constructs a fresh
/// multi-threaded task runtime, or reports the OS error as text.
#[verifier::external_body]
pub(crate) fn build_runtime() -> (r: Result<Runtime, String>) {
    match tokio::runtime::Builder::new_multi_thread().enable_all().build() {
        Ok(rt) => Ok(rt),
        Err(e) => Err(format!("{e}")),
    }
}

/// Relies on tokio::sync::mpsc::unbounded_channel: returns the two ends of a
/// fresh unbounded queue.
#[verifier::external_body]
pub(crate) fn channel_pair<T>() -> (r: (UnboundedSender<T>, UnboundedReceiver<T>)) {
    tokio::sync::mpsc::unbounded_channel()
}

/// Relies on UnboundedSender::send: never blocks; on failure (the consumer
/// end was dropped or closed) the submitted value comes back unchanged inside
/// the error.
#[verifier::external_body]
pub(crate) fn channel_send<T>(tx: &UnboundedSender<T>, value: T) -> (r: Result<(), T>)
    ensures
        r matches Err(v) ==> v == value,
{
    match tx.send(value) {
        Ok(()) => Ok(()),
        Err(tokio::sync::mpsc::error::SendError(v)) => Err(v),
    }
}

/// Relies on UnboundedReceiver::try_recv: never blocks; tells a queued value,
/// an empty queue with live producers, and a closed queue apart.
#[verifier::external_body]
pub(crate) fn channel_try_recv<T>(rx: &mut UnboundedReceiver<T>) -> (r: TryRecvOutcome<T>) {
    match rx.try_recv() {
        Ok(v) => TryRecvOutcome::Item(v),
        Err(tokio::sync::mpsc::error::TryRecvError::Empty) => TryRecvOutcome::Empty,
        Err(tokio::sync::mpsc::error::TryRecvError::Disconnected) => TryRecvOutcome::Closed,
    }
}

/// Relies on UnboundedSender::clone: the clone feeds the same queue.
#[verifier::external_body]
pub(crate) fn channel_sender_clone<T>(tx: &UnboundedSender<T>) -> (r: UnboundedSender<T>) {
    tx.clone()
}

/// Relies on JoinHandle::is_finished: true once the task has completed.
#[verifier::external_body]
pub(crate) fn task_is_finished<T>(handle: &JoinHandle<T>) -> (r: bool) {
    handle.is_finished()
}

/// Relies on Runtime::block_on driving the join handle to completion: yields
/// the task's own result, or the join failure (panic or cancellation) as
/// text. Must only be called from outside the runtime's own async context;
/// the foreground facades are the only callers.
#[verifier::external_body]
pub(crate) fn join_task<T>(rt: &Runtime, handle: JoinHandle<T>) -> (r: Result<T, String>) {
    match rt.block_on(handle) {
        Ok(v) => Ok(v),
        Err(e) => Err(format!("{e}")),
    }
}

} // verus!
