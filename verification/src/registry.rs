//! The completion registry: registration events and the drain decision.
//!
//! Spawning a task sends a registration event carrying the task's join
//! handle on an unbounded channel; `ready` sends the ready marker, which is
//! delivered after every registration that was sent before it. The joiner
//! drains the channel, collecting handles, until it meets the marker;
//! [`drain_step`] is the verified decision taken for each received event.

use vstd::prelude::*;

verus! {

/// Declares `tokio::task::JoinHandle`, the scheduler's handle for awaiting a
/// spawned task's completion. The coordinator only carries it; awaiting it is
/// the caller's (asynchronous) side.
#[verifier::external_type_specification]
#[verifier::external_body]
#[verifier::reject_recursive_types(T)]
pub struct ExJoinHandle<T>(tokio::task::JoinHandle<T>);

/// Declares `tokio::sync::mpsc::UnboundedSender`, the producing half of the
/// registration channel.
#[verifier::external_type_specification]
#[verifier::external_body]
#[verifier::reject_recursive_types(T)]
pub struct ExUnboundedSender<T>(tokio::sync::mpsc::UnboundedSender<T>);

/// Declares `tokio::sync::mpsc::UnboundedReceiver`, the consuming half of the
/// registration channel.
#[verifier::external_type_specification]
#[verifier::external_body]
#[verifier::reject_recursive_types(T)]
pub struct ExUnboundedReceiver<T>(tokio::sync::mpsc::UnboundedReceiver<T>);

/// A registration event: either a spawned task's join handle, or the ready
/// marker that tells the joiner that no more tasks will be registered.
pub enum TaskMsg {
    /// A task was spawned; here is the handle to await its completion on.
    Task(tokio::task::JoinHandle<()>),
    /// No more tasks will be registered for the upcoming join.
    Ready,
}

/// Create the raw registration channel.
///
/// Relies on `tokio::sync::mpsc::unbounded_channel`: returns the sender and
/// the receiver of one unbounded queue that delivers each sender's messages
/// in that sender's send order.
#[verifier::external_body]
fn unbounded_pair() -> (
    tokio::sync::mpsc::UnboundedSender<TaskMsg>,
    tokio::sync::mpsc::UnboundedReceiver<TaskMsg>,
) {
    tokio::sync::mpsc::unbounded_channel()
}

/// The consuming half of the registration channel, carrying as ghost state
/// the sender it is connected to — so a contract can say that the joiner
/// drains the very channel the registrations were sent on.
pub struct RegistryReceiver {
    rx: tokio::sync::mpsc::UnboundedReceiver<TaskMsg>,
    /// The sender feeding this receiver's queue.
    source: Ghost<tokio::sync::mpsc::UnboundedSender<TaskMsg>>,
}

impl RegistryReceiver {
    /// The sender feeding this receiver's queue.
    pub closed spec fn source(self) -> tokio::sync::mpsc::UnboundedSender<TaskMsg> {
        self.source@
    }

    /// The inner receiver, as a specification-level value.
    pub closed spec fn receiver(self) -> tokio::sync::mpsc::UnboundedReceiver<TaskMsg> {
        self.rx
    }

    /// Hand out the inner receiver, for the joiner to receive registration
    /// events on.
    pub fn into_inner(self) -> (r: tokio::sync::mpsc::UnboundedReceiver<TaskMsg>)
        ensures
            r == self.receiver(),
    {
        self.rx
    }
}

/// Create the registration channel: the returned receiver is connected to
/// the returned sender.
pub(crate) fn registry_channel() -> (r: (
    tokio::sync::mpsc::UnboundedSender<TaskMsg>,
    RegistryReceiver,
))
    ensures
        r.1.source() == r.0,
{
    let (tx, rx) = unbounded_pair();
    let ghost source = tx;
    (tx, RegistryReceiver { rx, source: Ghost(source) })
}

/// Enqueue one registration event.
///
/// Relies on `tokio::sync::mpsc::UnboundedSender::send`: enqueues the message
/// without blocking; it fails only when the receiver is gone, and that
/// failure is deliberately ignored — a shutdown in progress must never be
/// disrupted by having lost its consumer.
#[verifier::external_body]
pub(crate) fn send_registration(tx: &tokio::sync::mpsc::UnboundedSender<TaskMsg>, msg: TaskMsg) {
    let _ = tx.send(msg);
}

/// The decision the joiner takes for each registration event while draining
/// the registry: a task handle is collected and the drain goes on; the ready
/// marker collects nothing and ends the drain.
pub fn drain_step(msg: TaskMsg, handles: &mut Vec<tokio::task::JoinHandle<()>>) -> (done: bool)
    ensures
        msg matches TaskMsg::Task(h) ==> !done && final(handles)@ == old(handles)@.push(h),
        msg is Ready ==> done && final(handles)@ == old(handles)@,
{
    match msg {
        TaskMsg::Task(handle) => {
            handles.push(handle);
            false
        },
        TaskMsg::Ready => true,
    }
}

} // verus!
