//! Tests of the cancellation pair: single firing, observed by every clone,
//! whether made before or after the firing.

use std::time::Duration;

use async_utils::Tripwire;

#[test]
fn tripwire_observes_firing() {
    let rt = tokio::runtime::Runtime::new().unwrap();
    rt.block_on(async {
        let (trigger, tripwire) = Tripwire::new();
        trigger.cancel();

        let mut rx = tripwire.into_receiver();
        tokio::time::timeout(Duration::from_secs(5), rx.changed())
            .await
            .expect("a tripwire must observe the firing");
    });
}

#[test]
fn tripwire_cloned_after_firing_still_observes_it() {
    let rt = tokio::runtime::Runtime::new().unwrap();
    rt.block_on(async {
        let (trigger, tripwire) = Tripwire::new();
        trigger.cancel();

        // Late subscription: the clone is made only after the firing, and
        // must still see the cancellation rather than hang.
        let late = tripwire.clone();
        let mut rx = late.into_receiver();
        tokio::time::timeout(Duration::from_secs(5), rx.changed())
            .await
            .expect("a late tripwire clone must observe the firing");
    });
}

#[test]
fn tripwire_clones_all_observe_one_firing() {
    let rt = tokio::runtime::Runtime::new().unwrap();
    rt.block_on(async {
        let (trigger, tripwire) = Tripwire::new();

        let early_one = tripwire.clone();
        let early_two = tripwire.clone();
        trigger.cancel();
        let late = tripwire.clone();

        for tw in [early_one, early_two, late, tripwire] {
            let mut rx = tw.into_receiver();
            tokio::time::timeout(Duration::from_secs(5), rx.changed())
                .await
                .expect("every clone must observe the same firing");
        }
    });
}

#[test]
fn cancel_without_listeners_is_not_an_error() {
    let (trigger, tripwire) = Tripwire::new();
    drop(tripwire);
    // Firing with every observer gone must be silently accepted.
    trigger.cancel();
}
