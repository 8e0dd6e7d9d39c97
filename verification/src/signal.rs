//! The cancellation pair: a single-fire broadcast signal.
//!
//! One [`Trigger`] fires the signal at most once; firing consumes the
//! `Trigger`, so a second firing is impossible by construction. Any number of
//! [`Tripwire`] clones observe the same firing, including clones created
//! after it: the signal is a watch channel whose receivers see a value
//! change that happened at any time before they are polled.
//!
//! A `Tripwire` carries, as ghost state, the sender of the channel it
//! observes. [`Tripwire::new`] establishes that the pair is connected —
//! the tripwire observes exactly the trigger it was created with — and
//! cloning preserves it, so a contract can say *which* signal a tripwire
//! observes.

use vstd::prelude::*;

verus! {

/// Declares `tokio::sync::watch::Sender`, the writing half of the broadcast
/// used for cancellation.
#[verifier::external_type_specification]
#[verifier::external_body]
#[verifier::reject_recursive_types(T)]
pub struct ExWatchSender<T>(tokio::sync::watch::Sender<T>);

/// Declares `tokio::sync::watch::Receiver`, the reading half of the broadcast
/// used for cancellation.
#[verifier::external_type_specification]
#[verifier::external_body]
#[verifier::reject_recursive_types(T)]
pub struct ExWatchReceiver<T>(tokio::sync::watch::Receiver<T>);

/// Relies on `tokio::sync::watch::Receiver::clone`: the clone observes the
/// same channel and has observed exactly what the cloned receiver had
/// observed (it keeps the seen version), so a clone made after a send still
/// sees that send as a change. As a value, the clone is the receiver it came
/// from.
pub assume_specification<T>[ <tokio::sync::watch::Receiver<T> as core::clone::Clone>::clone ](
    rx: &tokio::sync::watch::Receiver<T>,
) -> (res: tokio::sync::watch::Receiver<T>)
    ensures
        res == *rx,
;

/// Create a connected watch pair over a single slot.
///
/// Relies on `tokio::sync::watch::channel`: returns the sender and a receiver
/// of the very channel that sender feeds, with nothing sent yet.
#[verifier::external_body]
fn watch_pair() -> (tokio::sync::watch::Sender<()>, tokio::sync::watch::Receiver<()>) {
    tokio::sync::watch::channel(())
}

/// The firing end of the cancellation pair. Write-once: `cancel` takes the
/// `Trigger` by value, so the signal can fire at most once.
pub struct Trigger {
    tx: tokio::sync::watch::Sender<()>,
}

/// The observing end of the cancellation pair. Cloneable; every clone,
/// whether made before or after the firing, observes the same single firing.
/// A task awaits it by taking the inner receiver with
/// [`Tripwire::into_receiver`] and waiting for the watched value to change (a
/// closed channel counts as a change, exactly as a fired one does).
pub struct Tripwire {
    rx: tokio::sync::watch::Receiver<()>,
    /// The sender whose firing this tripwire observes.
    source: Ghost<tokio::sync::watch::Sender<()>>,
}

impl Trigger {
    /// The sending half this trigger fires.
    pub closed spec fn sender(self) -> tokio::sync::watch::Sender<()> {
        self.tx
    }

    /// Fire the cancellation signal. Consumes the `Trigger`, so firing twice
    /// is impossible. It is not an error if nobody is listening.
    ///
    /// Relies on `tokio::sync::watch::Sender::send`: stores the new value and
    /// notifies every current receiver of this sender's channel; later
    /// receivers of the same channel see the stored value as a change too. It
    /// fails only when no receiver exists, and that failure is deliberately
    /// ignored.
    #[verifier::external_body]
    pub fn cancel(self) {
        let _ = self.tx.send(());
    }
}

impl Tripwire {
    /// The sender whose firing this tripwire observes.
    pub closed spec fn source(self) -> tokio::sync::watch::Sender<()> {
        self.source@
    }

    /// Whether this tripwire observes the given trigger's signal: its
    /// receiver belongs to the channel that trigger fires.
    pub open spec fn observes(self, trigger: Trigger) -> bool {
        self.source() == trigger.sender()
    }

    /// The inner watch receiver, as a specification-level value.
    pub closed spec fn receiver(self) -> tokio::sync::watch::Receiver<()> {
        self.rx
    }

    /// Create a connected cancellation pair: the returned tripwire observes
    /// exactly the returned trigger.
    pub fn new() -> (r: (Trigger, Tripwire))
        ensures
            r.1.observes(r.0),
    {
        let (tx, rx) = watch_pair();
        let ghost source = tx;
        (Trigger { tx }, Tripwire { rx, source: Ghost(source) })
    }

    /// Hand out the inner watch receiver, for the caller to await the firing
    /// on (the next observed change of the watched value, or the channel
    /// closing, both of which mean the `Trigger` is gone for good).
    pub fn into_receiver(self) -> (r: tokio::sync::watch::Receiver<()>)
        ensures
            r == self.receiver(),
    {
        self.rx
    }
}

impl Clone for Tripwire {
    /// A clone is the same observer: same channel, same observation state —
    /// so a clone made after the firing still sees it.
    fn clone(&self) -> (r: Self)
        ensures
            r == *self,
    {
        Tripwire { rx: self.rx.clone(), source: Ghost(self.source@) }
    }
}

} // verus!
