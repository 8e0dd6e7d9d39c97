//! The coordinator: a handle with which tasks are registered and then halted
//! and joined.
//!
//! A [`HaltHandle`] owns a prototype [`Tripwire`] cloned into every spawned
//! task, the take-once firing capability (`Trigger`), the halt notifier
//! shared with the joiner, the sending half of the registration channel, and
//! the take-once receiving half. Operations that need exclusive access take
//! `&mut self`; a caller that shares the handle between threads puts it
//! behind its own lock and the contracts here guarantee the take-once
//! discipline under that lock.
//!
//! The handle carries a [`ProtocolState`] over the scheduler's task handles
//! as ghost state: whether the cancellation signal has fired, whether the
//! joiner has been released, and the sequence of registration events sent so
//! far. Every operation's contract states which transition of the protocol
//! model it performs, so the laws proved in [`crate::model`] speak about this
//! executable coordinator. [`wf`] states how the handle's parts are wired:
//! the prototype tripwire observes the very trigger that `halt` fires, the
//! receiving half drains the very channel the registrations are sent on, and
//! the firing record is present exactly while the protocol has not fired.
//!
//! The suspension points of the protocol (waiting for the halt notifier,
//! receiving registration events, awaiting task completion) are the caller's
//! asynchronous side: the caller awaits, and hands what it received to the
//! verified decisions here and in [`crate::registry`] / [`crate::outcome`].

use vstd::prelude::*;

use crate::model::{initial_state, step, ModelOp, ProtocolState};
use crate::registry;
use crate::registry::{RegistryReceiver, TaskMsg};
use crate::signal::{Trigger, Tripwire};
use std::sync::Arc;

verus! {

/// Declares `tokio::sync::Notify`, the missed-signal-safe one-shot wakeup
/// used to tell the joiner that shutdown has been initiated.
#[verifier::external_type_specification]
#[verifier::external_body]
pub struct ExNotify(tokio::sync::Notify);

/// Create a fresh halt notifier.
///
/// Relies on `tokio::sync::Notify::new`: returns a notifier with no stored
/// permit and no waiter.
#[verifier::external_body]
fn new_notify() -> tokio::sync::Notify {
    tokio::sync::Notify::new()
}

/// Wake the joiner, or leave a stored permit if it is not waiting yet.
///
/// Relies on `tokio::sync::Notify::notify_one`: wakes one current waiter of
/// this notifier, or stores a permit that the next wait consumes immediately
/// — so the wakeup is delivered even to a waiter that arrives after the
/// call.
#[verifier::external_body]
fn wake_joiner(notify: &Arc<tokio::sync::Notify>) {
    notify.notify_one();
}

/// The abstract state of a [`HaltHandle`], for contracts: which of the
/// take-once records are still present, whether the interrupt-signal task was
/// installed, the runtime halves the handle owns, and the ghost protocol
/// state its operations step through.
pub ghost struct HaltHandleView {
    /// Prototype tripwire cloned into every spawned task.
    pub tripwire: Tripwire,
    /// The firing capability; `None` once `halt` has fired.
    pub halt: Option<Trigger>,
    /// Producing half of the registration channel.
    pub tasks_tx: tokio::sync::mpsc::UnboundedSender<TaskMsg>,
    /// Consuming half of the registration channel; `None` once taken by join.
    pub tasks: Option<RegistryReceiver>,
    /// The halt notifier shared with the joiner.
    pub notify_join: Arc<tokio::sync::Notify>,
    /// Whether the interrupt-signal task was already installed.
    pub ctrlc_task_spawned: bool,
    /// The protocol state: fired / notified / registration events.
    pub protocol: ProtocolState<tokio::task::JoinHandle<()>>,
}

/// How a well-formed handle is wired: the prototype tripwire observes
/// exactly the trigger that `halt` will fire, the receiving half drains
/// exactly the channel the registrations are sent on, and the firing record
/// is present exactly while the protocol's firing has not been consumed.
pub open spec fn wf(v: HaltHandleView) -> bool {
    &&& (v.halt matches Some(t) ==> v.tripwire.observes(t))
    &&& (v.tasks matches Some(r) ==> r.source() == v.tasks_tx)
    &&& (v.halt is Some <==> !v.protocol.halt_taken)
}

/// The handle state after a `halt`: on the first call (firing record
/// present) the record is consumed, the cancellation signal is fired and the
/// joiner is notified; on every later call nothing changes at all.
pub open spec fn after_halt(v: HaltHandleView) -> HaltHandleView {
    if v.halt is Some {
        HaltHandleView {
            halt: None,
            protocol: ProtocolState {
                fired: true,
                halt_taken: true,
                notified: true,
                ..v.protocol
            },
            ..v
        }
    } else {
        v
    }
}

/// Law: `halt` is idempotent on the handle. A second halt finds the firing
/// record already gone and leaves the state exactly as the first left it —
/// so any number of halts beyond the first has no further observable effect.
pub proof fn lemma_handle_halt_idempotent(v: HaltHandleView)
    ensures
        after_halt(after_halt(v)) == after_halt(v),
{
}

/// Law: on a well-formed handle, `halt` performs exactly the protocol
/// model's halt transition, and leaves the handle well-formed — so the
/// model's laws (permanence of firing, idempotence, order independence)
/// apply to this coordinator.
pub proof fn lemma_halt_refines_model(v: HaltHandleView)
    requires
        wf(v),
    ensures
        after_halt(v).protocol == step(
            v.protocol,
            ModelOp::<tokio::task::JoinHandle<()>>::Halt,
        ),
        wf(after_halt(v)),
{
}

/// A handle with which tasks are registered and then halted and joined.
///
/// The protocol: register every task with [`HaltHandle::register_task`] (a
/// task is started by the caller's scheduler, which hands back the join
/// handle); call [`HaltHandle::ready`] exactly once when every relevant task
/// has been registered; call [`HaltHandle::halt`] any number of times, from
/// anywhere, to fire the cancellation signal; join by taking the receiving
/// half once with [`HaltHandle::take_tasks`], awaiting the halt notifier,
/// draining the registry with [`crate::registry::drain_step`], and reducing
/// the awaited outcomes with [`crate::outcome::join_outcome`].
pub struct HaltHandle {
    /// Prototype tripwire; a fresh clone is handed to every spawned task.
    /// It never observes the channel itself, so every clone taken from it
    /// sees a firing as a change no matter when the clone is made.
    tripwire: Tripwire,
    /// The take-once firing capability: consumed by the first `halt`, making
    /// every later `halt` a no-op.
    halt: Option<Trigger>,
    /// Producing half of the registration channel.
    tasks_tx: tokio::sync::mpsc::UnboundedSender<TaskMsg>,
    /// The take-once consuming half of the registration channel: consumed by
    /// the single permitted join.
    tasks: Option<RegistryReceiver>,
    /// Wakes the joiner when `halt` fires, even if the joiner starts waiting
    /// only later.
    notify_join: Arc<tokio::sync::Notify>,
    /// Whether an interrupt-signal task was already installed; installation
    /// is permitted at most once.
    ctrlc_task_spawned: bool,
    /// Ghost protocol state stepped by every operation.
    protocol: Ghost<ProtocolState<tokio::task::JoinHandle<()>>>,
}

impl View for HaltHandle {
    type V = HaltHandleView;

    closed spec fn view(&self) -> HaltHandleView {
        HaltHandleView {
            tripwire: self.tripwire,
            halt: self.halt,
            tasks_tx: self.tasks_tx,
            tasks: self.tasks,
            notify_join: self.notify_join,
            ctrlc_task_spawned: self.ctrlc_task_spawned,
            protocol: self.protocol@,
        }
    }
}

impl HaltHandle {
    /// Create a new coordinator: a connected, unfired cancellation pair, an
    /// empty registration channel whose halves are wired to each other, a
    /// fresh halt notifier, and no interrupt-signal task installed. Both
    /// take-once records are present, the protocol state is initial (no
    /// registrations, signal unfired, joiner not released), and the handle
    /// is well-formed.
    pub fn new() -> (h: HaltHandle)
        ensures
            h@.halt is Some,
            h@.tasks is Some,
            !h@.ctrlc_task_spawned,
            h@.protocol == initial_state::<tokio::task::JoinHandle<()>>(),
            wf(h@),
    {
        let (trigger, tripwire) = Tripwire::new();
        let notify_join = Arc::new(new_notify());
        let (tasks_tx, tasks_rx) = registry::registry_channel();
        HaltHandle {
            tripwire,
            halt: Some(trigger),
            tasks_tx,
            tasks: Some(tasks_rx),
            notify_join,
            ctrlc_task_spawned: false,
            protocol: Ghost(initial_state()),
        }
    }

    /// A fresh observer of this handle's cancellation signal, to hand to a
    /// task that is about to be spawned: a clone of the prototype tripwire,
    /// observing the very trigger this handle's `halt` fires.
    pub fn tripwire(&self) -> (r: Tripwire)
        ensures
            r == self@.tripwire,
    {
        self.tripwire.clone()
    }

    /// Register a spawned task for the upcoming join by enqueueing its join
    /// handle on the registration channel: the protocol model's spawn
    /// transition, appending exactly `Task(task)` to the registration
    /// sequence, after everything registered before. Never blocks; a send
    /// after the joiner is gone is silently ignored.
    pub fn register_task(&mut self, task: tokio::task::JoinHandle<()>)
        ensures
            (final(self)@ == HaltHandleView {
                protocol: step(old(self)@.protocol, ModelOp::Spawn(task)),
                ..old(self)@
            }),
    {
        let ghost registered = task;
        registry::send_registration(&self.tasks_tx, TaskMsg::Task(task));
        self.protocol = Ghost(step(self.protocol@, ModelOp::Spawn(registered)));
    }

    /// Tell the handle that all tasks were registered, by enqueueing the
    /// ready marker: the protocol model's ready transition, appending
    /// exactly the `Ready` marker after every registration sent before it.
    /// To be called exactly once per handle; never blocks, and a send after
    /// the joiner is gone is silently ignored.
    pub fn ready(&mut self)
        ensures
            (final(self)@ == HaltHandleView {
                protocol: step(
                    old(self)@.protocol,
                    ModelOp::<tokio::task::JoinHandle<()>>::Ready,
                ),
                ..old(self)@
            }),
    {
        registry::send_registration(&self.tasks_tx, TaskMsg::Ready);
        self.protocol = Ghost(step(self.protocol@, ModelOp::Ready));
    }

    /// Tell the associated tasks to halt. The first call takes the firing
    /// record, fires the cancellation signal — the one every tripwire handed
    /// out by this handle observes — and wakes the joiner; every later call
    /// finds the record gone and does nothing at all.
    pub fn halt(&mut self)
        ensures
            final(self)@ == after_halt(old(self)@),
    {
        match self.halt.take() {
            Some(trigger) => {
                trigger.cancel();
                wake_joiner(&self.notify_join);
                self.protocol = Ghost(
                    ProtocolState {
                        fired: true,
                        halt_taken: true,
                        notified: true,
                        ..self.protocol@
                    },
                );
            },
            None => {},
        }
    }

    /// Take exclusive ownership of the receiving half of the registration
    /// channel — the one wired to this handle's sending half. The single
    /// permitted join takes it; a second take finds `None`, which the caller
    /// must treat as the programming error of joining twice.
    pub fn take_tasks(&mut self) -> (r: Option<RegistryReceiver>)
        ensures
            r == old(self)@.tasks,
            (final(self)@ == HaltHandleView { tasks: None, ..old(self)@ }),
    {
        self.tasks.take()
    }

    /// The notifier the joiner must await before draining the registry: the
    /// very one `halt` wakes. The wait returns immediately when `halt`
    /// already fired, and otherwise suspends until it does — join is thereby
    /// independent of the wall-clock order of `halt` against `ready` and the
    /// registrations.
    pub fn notifier(&self) -> (r: &Arc<tokio::sync::Notify>)
        ensures
            *r == self@.notify_join,
    {
        &self.notify_join
    }

    /// Claim the right to install the interrupt-signal task. Only the first
    /// claim succeeds; installation stays claimed forever after, so the
    /// signal task is spawned at most once per handle.
    pub fn claim_ctrlc_install(&mut self) -> (fresh: bool)
        ensures
            fresh == !old(self)@.ctrlc_task_spawned,
            (final(self)@ == HaltHandleView { ctrlc_task_spawned: true, ..old(self)@ }),
    {
        let fresh = !self.ctrlc_task_spawned;
        self.ctrlc_task_spawned = true;
        fresh
    }
}

} // verus!
