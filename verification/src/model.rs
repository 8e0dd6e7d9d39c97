//! An abstract model of the coordinator protocol, and proofs of its
//! call-order guarantees.
//!
//! The spawner, the halt initiator and the joiner may run on different
//! threads and interleave their calls arbitrarily. This module captures the
//! protocol state those calls act on — whether the cancellation signal has
//! fired, whether the take-once firing record is still present, whether the
//! halt notifier has been woken, and the sequence of registration events —
//! and proves, over every interleaving, the guarantees the coordinator is
//! built on: firing is permanent, repeated halts change nothing, the joiner
//! is only released by a halt, and the set of tasks the joiner collects does
//! not depend on when the halt happened.
//!
//! The state is generic in `T`, the value registered for a spawned task.
//! [`crate::HaltHandle`] carries a `ProtocolState` over the scheduler's task
//! handles as ghost state: every operation's contract says which transition
//! of this model it performs, so the lemmas here speak about the executable
//! coordinator. The runtime pieces the state abstracts are the watch channel
//! behind [`crate::Trigger`], the halt notifier, and the registration channel
//! drained by [`crate::registry::drain_step`].

use vstd::prelude::*;

verus! {

/// One registration event as the joiner sees it: a spawned task or the ready
/// marker.
pub enum ModelEvent<T> {
    /// A task was registered.
    Task(T),
    /// No more tasks will be registered.
    Ready,
}

/// One protocol call made by any of the racing actors.
pub enum ModelOp<T> {
    /// `spawn`: start the given task and register it.
    Spawn(T),
    /// `ready`: register the ready marker.
    Ready,
    /// `halt`: fire the cancellation signal, if it was not fired yet.
    Halt,
}

/// The protocol state shared by the spawner, the halt initiator and the
/// joiner.
pub ghost struct ProtocolState<T> {
    /// Has the cancellation signal fired? Every tripwire observes this.
    pub fired: bool,
    /// Has the take-once firing record been consumed?
    pub halt_taken: bool,
    /// Has the halt notifier been woken? The joiner's wait completes exactly
    /// when this is set, no matter when the wait started.
    pub notified: bool,
    /// The registration events sent so far, in send order.
    pub events: Seq<ModelEvent<T>>,
}

/// The state of a freshly created coordinator: signal unfired, firing record
/// present, joiner not released, no registrations.
pub open spec fn initial_state<T>() -> ProtocolState<T> {
    ProtocolState { fired: false, halt_taken: false, notified: false, events: Seq::empty() }
}

/// The effect of one protocol call. `spawn` and `ready` only append a
/// registration event; the first `halt` fires the signal, wakes the joiner
/// and consumes the firing record, and every later `halt` changes nothing.
pub open spec fn step<T>(s: ProtocolState<T>, op: ModelOp<T>) -> ProtocolState<T> {
    match op {
        ModelOp::Spawn(task) => ProtocolState {
            events: s.events.push(ModelEvent::Task(task)),
            ..s
        },
        ModelOp::Ready => ProtocolState { events: s.events.push(ModelEvent::Ready), ..s },
        ModelOp::Halt => if s.halt_taken {
            s
        } else {
            ProtocolState { fired: true, halt_taken: true, notified: true, ..s }
        },
    }
}

/// The state after a whole sequence of protocol calls, in order.
pub open spec fn run<T>(s: ProtocolState<T>, ops: Seq<ModelOp<T>>) -> ProtocolState<T>
    decreases ops.len(),
{
    if ops.len() == 0 {
        s
    } else {
        run(step(s, ops[0]), ops.skip(1))
    }
}

/// Whether any call in the sequence is a `halt`.
pub open spec fn contains_halt<T>(ops: Seq<ModelOp<T>>) -> bool {
    exists|i: int| 0 <= i < ops.len() && ops[i] is Halt
}

/// The registration events that a sequence of calls sends: one per `spawn`,
/// the marker for `ready`, nothing for `halt`, in call order.
pub open spec fn registered_events<T>(ops: Seq<ModelOp<T>>) -> Seq<ModelEvent<T>>
    decreases ops.len(),
{
    if ops.len() == 0 {
        Seq::empty()
    } else {
        let rest = registered_events(ops.skip(1));
        match ops[0] {
            ModelOp::Spawn(task) => seq![ModelEvent::Task(task)] + rest,
            ModelOp::Ready => seq![ModelEvent::Ready] + rest,
            ModelOp::Halt => rest,
        }
    }
}

/// The tasks the joiner collects from a sequence of registration events:
/// everything up to the first ready marker.
pub open spec fn collected<T>(events: Seq<ModelEvent<T>>) -> Seq<T>
    decreases events.len(),
{
    if events.len() == 0 {
        Seq::empty()
    } else {
        match events[0] {
            ModelEvent::Ready => Seq::empty(),
            ModelEvent::Task(task) => seq![task] + collected(events.skip(1)),
        }
    }
}

/// The tasks a sequence of calls spawns before its first `ready`, skipping
/// over any interleaved `halt`s.
pub open spec fn spawned_before_ready<T>(ops: Seq<ModelOp<T>>) -> Seq<T>
    decreases ops.len(),
{
    if ops.len() == 0 {
        Seq::empty()
    } else {
        match ops[0] {
            ModelOp::Spawn(task) => seq![task] + spawned_before_ready(ops.skip(1)),
            ModelOp::Ready => Seq::empty(),
            ModelOp::Halt => spawned_before_ready(ops.skip(1)),
        }
    }
}

/// Once the cancellation signal has fired, it stays fired under every later
/// protocol call: a tripwire cloned at any time after the firing — however
/// late — still observes it.
pub proof fn lemma_firing_is_permanent<T>(s: ProtocolState<T>, ops: Seq<ModelOp<T>>)
    requires
        s.fired,
    ensures
        run(s, ops).fired,
    decreases ops.len(),
{
    if ops.len() > 0 {
        lemma_firing_is_permanent(step(s, ops[0]), ops.skip(1));
    }
}

/// Halting is idempotent: a second `halt`, applied directly after a first,
/// leaves the state exactly as the first left it — so any number of
/// additional `halt` calls have no further observable effect.
pub proof fn lemma_halt_idempotent<T>(s: ProtocolState<T>)
    ensures
        step(step(s, ModelOp::<T>::Halt), ModelOp::<T>::Halt) == step(s, ModelOp::<T>::Halt),
{
}

/// After a `halt`, any later `halt` is a no-op, no matter what other calls
/// happened in between: the firing record stays consumed forever.
pub proof fn lemma_later_halts_no_op<T>(s: ProtocolState<T>, ops: Seq<ModelOp<T>>)
    requires
        s.halt_taken,
    ensures
        run(s, ops).halt_taken,
        step(run(s, ops), ModelOp::<T>::Halt) == run(s, ops),
    decreases ops.len(),
{
    if ops.len() > 0 {
        lemma_later_halts_no_op(step(s, ops[0]), ops.skip(1));
    }
}

/// The joiner is released only by a halt: under any sequence of calls that
/// contains no `halt`, the halt notifier stays unwoken, so a join that
/// started from the initial state is still pending — `ready` and `spawn`
/// alone never release it.
pub proof fn lemma_join_pending_without_halt<T>(s: ProtocolState<T>, ops: Seq<ModelOp<T>>)
    requires
        !s.notified,
        !contains_halt(ops),
    ensures
        !run(s, ops).notified,
    decreases ops.len(),
{
    if ops.len() > 0 {
        assert(!(ops[0] is Halt));
        assert(!contains_halt(ops.skip(1))) by {
            assert forall|i: int| 0 <= i < ops.skip(1).len() implies !(ops.skip(1)[i] is Halt) by {
                assert(ops.skip(1)[i] == ops[i + 1]);
            }
        }
        lemma_join_pending_without_halt(step(s, ops[0]), ops.skip(1));
    }
}

/// The registration events are independent of halting: a sequence of calls
/// appends to the registry exactly the events of its `spawn`s and `ready`s,
/// in their own order, wherever any `halt`s are interleaved.
pub proof fn lemma_registry_independent_of_halt<T>(s: ProtocolState<T>, ops: Seq<ModelOp<T>>)
    ensures
        run(s, ops).events == s.events + registered_events(ops),
    decreases ops.len(),
{
    if ops.len() == 0 {
        assert(s.events + registered_events(ops) =~= s.events);
    } else {
        let s1 = step(s, ops[0]);
        lemma_registry_independent_of_halt(s1, ops.skip(1));
        assert(s1.events + registered_events(ops.skip(1)) =~= s.events + registered_events(ops));
    }
}

/// Draining up to the first ready marker collects exactly the tasks spawned
/// before the first `ready`, whatever `halt`s were interleaved.
pub proof fn lemma_collected_is_spawned<T>(ops: Seq<ModelOp<T>>)
    ensures
        collected(registered_events(ops)) == spawned_before_ready(ops),
    decreases ops.len(),
{
    if ops.len() > 0 {
        lemma_collected_is_spawned(ops.skip(1));
        let rest = registered_events(ops.skip(1));
        match ops[0] {
            ModelOp::Spawn(task) => {
                let evs = seq![ModelEvent::Task(task)] + rest;
                assert(evs.skip(1) =~= rest);
                assert(seq![task] + collected(rest) =~= spawned_before_ready(ops));
            },
            ModelOp::Ready => {
                let evs = seq![ModelEvent::<T>::Ready] + rest;
                assert(collected(evs) =~= Seq::<T>::empty());
            },
            ModelOp::Halt => {},
        }
    }
}

/// The headline order-independence guarantee: for any interleaving of
/// `spawn`, `ready` and `halt` calls from the initial state, the joiner's
/// drain collects exactly the tasks spawned before the first `ready` — the
/// same set as if every `spawn` and `ready` had happened strictly before the
/// halt. No collected task is lost to a race with `halt`.
pub proof fn lemma_order_independence<T>(ops: Seq<ModelOp<T>>)
    ensures
        collected(run(initial_state::<T>(), ops).events) == spawned_before_ready(ops),
{
    lemma_registry_independent_of_halt(initial_state::<T>(), ops);
    lemma_collected_is_spawned(ops);
    assert(initial_state::<T>().events + registered_events(ops) =~= registered_events(ops));
}

} // verus!
