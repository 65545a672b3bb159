//! Trusted declarations for the outside collaborators the supervisor and its
//! workers are built on: tokio's bounded mpsc channel (worker -> supervisor
//! status reports), tokio's broadcast channel (supervisor -> worker control
//! directives), tokio join handles, the system clock, and the random number
//! generator.
//!
//! Everything here is `external_body`: the contracts state only what the
//! outside sources document, and nothing about outcomes that depend on other
//! threads, the clock, or chance.

use vstd::prelude::*;

use crate::messages::{ControlPoll, TaskRxMsg, TaskTxMsg};

verus! {

#[verifier::external_type_specification]
#[verifier::external_body]
#[verifier::reject_recursive_types(T)]
pub struct ExMpscSender<T>(tokio::sync::mpsc::Sender<T>);

#[verifier::external_type_specification]
#[verifier::external_body]
#[verifier::reject_recursive_types(T)]
pub struct ExMpscReceiver<T>(tokio::sync::mpsc::Receiver<T>);

#[verifier::external_type_specification]
#[verifier::external_body]
#[verifier::reject_recursive_types(T)]
pub struct ExBroadcastSender<T>(tokio::sync::broadcast::Sender<T>);

#[verifier::external_type_specification]
#[verifier::external_body]
#[verifier::reject_recursive_types(T)]
pub struct ExBroadcastReceiver<T>(tokio::sync::broadcast::Receiver<T>);

#[verifier::external_type_specification]
#[verifier::external_body]
#[verifier::reject_recursive_types(T)]
pub struct ExJoinHandle<T>(tokio::task::JoinHandle<T>);

#[verifier::external_type_specification]
#[verifier::external_body]
pub struct ExJoinError(tokio::task::JoinError);

/// Relies on tokio::sync::mpsc::channel: builds the bounded status channel.
/// The capacity must be positive and within the underlying semaphore's
/// permit limit of `usize::MAX / 8`, or the constructor panics.
#[verifier::external_body]
pub(crate) fn status_channel(
    capacity: usize,
) -> (tokio::sync::mpsc::Sender<TaskTxMsg>, tokio::sync::mpsc::Receiver<TaskTxMsg>)
    requires
        0 < capacity <= usize::MAX / 8,
{
    tokio::sync::mpsc::channel(capacity)
}

/// Relies on tokio::sync::broadcast::channel: builds the control channel and
/// keeps only the sending half; workers subscribe for their own receivers.
/// The capacity must be positive and at most `usize::MAX / 2`, or the
/// constructor panics.
#[verifier::external_body]
pub(crate) fn control_channel(capacity: usize) -> tokio::sync::broadcast::Sender<TaskRxMsg>
    requires
        0 < capacity <= usize::MAX / 2,
{
    let (tx, _) = tokio::sync::broadcast::channel(capacity);
    tx
}

/// Relies on tokio's `Clone for mpsc::Sender`: a clone feeds the same queue.
#[verifier::external_body]
pub(crate) fn clone_status_sender(
    tx: &tokio::sync::mpsc::Sender<TaskTxMsg>,
) -> tokio::sync::mpsc::Sender<TaskTxMsg> {
    tx.clone()
}

/// Relies on tokio::sync::broadcast::Sender::subscribe: the new receiver sees
/// only directives sent after this call.
#[verifier::external_body]
pub(crate) fn subscribe_control(
    tx: &tokio::sync::broadcast::Sender<TaskRxMsg>,
) -> tokio::sync::broadcast::Receiver<TaskRxMsg> {
    tx.subscribe()
}

/// Relies on tokio::sync::mpsc::Sender::blocking_send: queues the report,
/// blocking while the channel is full. Returns whether the receiver still
/// existed; nothing more can be promised of an outcome that depends on the
/// supervisor's side. Must be called from a blocking context, never from an
/// async one (tokio panics there).
#[verifier::external_body]
pub(crate) fn send_status(tx: &tokio::sync::mpsc::Sender<TaskTxMsg>, msg: TaskTxMsg) -> bool {
    tx.blocking_send(msg).is_ok()
}

/// Relies on tokio::sync::mpsc::Receiver::try_recv: a non-blocking read of
/// the status queue. `None` covers both an empty queue and a closed channel;
/// the supervisor treats the two alike and stops draining.
#[verifier::external_body]
pub(crate) fn try_recv_status(
    rx: &mut tokio::sync::mpsc::Receiver<TaskTxMsg>,
) -> Option<TaskTxMsg> {
    rx.try_recv().ok()
}

/// Relies on tokio::sync::broadcast::Sender::send: hands the directive to
/// every currently subscribed receiver. Returns whether at least one receiver
/// existed; `true` does not mean any worker will observe the directive (a
/// lagging receiver may skip it).
#[verifier::external_body]
pub(crate) fn publish_control(
    tx: &tokio::sync::broadcast::Sender<TaskRxMsg>,
    msg: TaskRxMsg,
) -> bool {
    tx.send(msg).is_ok()
}

/// Relies on tokio::sync::broadcast::Receiver::try_recv: a non-blocking poll
/// for a directive. The four outcomes of the outside call map one-to-one onto
/// `ControlPoll`.
#[verifier::external_body]
pub(crate) fn poll_control(
    rx: &mut tokio::sync::broadcast::Receiver<TaskRxMsg>,
) -> ControlPoll {
    match rx.try_recv() {
        Ok(msg) => ControlPoll::Msg(msg),
        Err(tokio::sync::broadcast::error::TryRecvError::Empty) => ControlPoll::Empty,
        Err(tokio::sync::broadcast::error::TryRecvError::Closed) => ControlPoll::Closed,
        Err(tokio::sync::broadcast::error::TryRecvError::Lagged(n)) => ControlPoll::Lagged(n),
    }
}

/// Relies on tokio::task::JoinHandle::is_finished: whether the spawned work
/// has completed. The answer depends on another execution context, so nothing
/// is promised of it.
#[verifier::external_body]
pub(crate) fn handle_finished(handle: &tokio::task::JoinHandle<Option<i128>>) -> bool {
    handle.is_finished()
}

/// Relies on chrono::Local::now and DateTime::timestamp_millis: the current
/// wall-clock time as milliseconds since the Unix epoch. The clock decides
/// the value; nothing is promised of it.
#[verifier::external_body]
pub(crate) fn now_millis() -> i64 {
    chrono::Local::now().timestamp_millis()
}

/// Relies on rand::random_range: a uniform draw from `lo..hi`. The range must
/// be non-empty, or the outside call panics; the draw always lies in it.
#[verifier::external_body]
pub(crate) fn random_in_range(lo: u64, hi: u64) -> (r: u64)
    requires
        lo < hi,
    ensures
        lo <= r < hi,
{
    rand::random_range(lo..hi)
}

/// Relies on rand::random: one draw of a uniformly random value. The draw is
/// random, so nothing is promised of it.
#[verifier::external_body]
pub(crate) fn random_i32() -> i32 {
    rand::random()
}

} // verus!
