//! End-to-end scenarios for the coordinator: the spawner, the halt initiator
//! and the joiner drive a shared `HaltHandle`, with the asynchronous side
//! (spawning, awaiting the notifier, receiving registrations, awaiting task
//! completion) performed here and every decision taken by the library.

use std::sync::{Arc, Mutex};
use std::time::Duration;

use async_utils::{drain_step, join_outcome, HaltError, HaltHandle, Tripwire};

/// Wait until the cancellation signal fires (or its `Trigger` is gone).
async fn wait_for_fire(tripwire: Tripwire) {
    let mut rx = tripwire.into_receiver();
    let _ = rx.changed().await;
}

/// Start a task under the scheduler and register it, as the coordinator's
/// `spawn` does: the factory receives a fresh tripwire clone.
fn spawn_on<FT, FN>(handle: &Mutex<HaltHandle>, f: FN)
where
    FT: std::future::Future<Output = ()> + Send + 'static,
    FN: FnOnce(Tripwire) -> FT,
{
    let tripwire = handle.lock().unwrap().tripwire();
    let task = tokio::spawn(f(tripwire));
    handle.lock().unwrap().register_task(task);
}

/// The joiner's side of the protocol: take the receiving half (once), await
/// the halt notifier, drain the registry until the ready marker, await the
/// collected tasks (optionally bounded by a deadline) and reduce the
/// outcomes.
async fn join_tasks(handle: &Mutex<HaltHandle>, timeout: Option<Duration>) -> Result<(), HaltError> {
    let (tasks_rx, notify) = {
        let mut guard = handle.lock().unwrap();
        let rx = guard
            .take_tasks()
            .expect("BUG: HaltHandle: join() called multiple times")
            .into_inner();
        (rx, guard.notifier().clone())
    };

    notify.notified().await;

    let mut tasks_rx = tasks_rx;
    let mut handles: Vec<tokio::task::JoinHandle<()>> = Vec::new();
    loop {
        match tasks_rx.recv().await {
            Some(msg) => {
                if drain_step(msg, &mut handles) {
                    break;
                }
            }
            None => break,
        }
    }

    let all = futures::future::join_all(handles);
    let outcome = match timeout {
        Some(t) => match tokio::time::timeout(t, all).await {
            Ok(results) => Some(results),
            Err(_) => None,
        },
        None => Some(all.await),
    };
    join_outcome(outcome)
}

#[test]
fn test_halthandle_basic() {
    let rt = tokio::runtime::Runtime::new().unwrap();
    rt.block_on(async {
        let handle = Mutex::new(HaltHandle::new());

        for _ in 0..10 {
            spawn_on(&handle, |tripwire| wait_for_fire(tripwire));
        }

        handle.lock().unwrap().ready();
        handle.lock().unwrap().halt();
        join_tasks(&handle, None).await.expect("BUG: join() failed");
    });
}

#[test]
fn test_halthandle_shared() {
    let rt = tokio::runtime::Runtime::new().unwrap();
    rt.block_on(async {
        let handle = Arc::new(Mutex::new(HaltHandle::new()));

        for _ in 0..10 {
            spawn_on(&handle, |tripwire| wait_for_fire(tripwire));
        }

        let handle2 = handle.clone();
        spawn_on(&handle, move |_| async move {
            handle2.lock().unwrap().halt();
        });

        handle.lock().unwrap().ready();
        join_tasks(&handle, None).await.expect("BUG: join() failed");
    });
}

#[test]
fn test_halthandle_race() {
    let rt = tokio::runtime::Runtime::new().unwrap();
    rt.block_on(async {
        let num_tasks: usize = 10;
        let handle = Arc::new(Mutex::new(HaltHandle::new()));
        let num_cancelled = Arc::new(std::sync::atomic::AtomicUsize::new(0));

        // Signal halt right away, this should be fine
        handle.lock().unwrap().halt();

        // Spawn tasks in another task to allow a race
        {
            let handle = handle.clone();
            let num_cancelled = num_cancelled.clone();

            tokio::spawn(async move {
                // Delay a bit so that the join happens sooner than the spawns
                tokio::time::sleep(Duration::from_millis(100)).await;

                for _ in 0..num_tasks {
                    let num_cancelled = num_cancelled.clone();
                    spawn_on(&handle, move |tripwire| async move {
                        wait_for_fire(tripwire).await;
                        num_cancelled.fetch_add(1, std::sync::atomic::Ordering::SeqCst);
                    });
                }

                // Finally, signal that tasks are ready
                handle.lock().unwrap().ready();
            });
        }

        join_tasks(&handle, None).await.expect("BUG: join() failed");

        let num_cancelled = num_cancelled.load(std::sync::atomic::Ordering::SeqCst);
        assert_eq!(num_cancelled, num_tasks);
    });
}

#[test]
fn test_halthandle_timeout() {
    let rt = tokio::runtime::Runtime::new().unwrap();
    rt.block_on(async {
        let handle = Mutex::new(HaltHandle::new());

        spawn_on(&handle, |tripwire| async {
            wait_for_fire(tripwire).await;

            // Delay cleanup on purpose here
            tokio::time::sleep(Duration::from_secs(9001)).await;
        });

        handle.lock().unwrap().ready();
        handle.lock().unwrap().halt();
        let res = join_tasks(&handle, Some(Duration::from_millis(100))).await;

        // Verify we've got a timeout
        match &res {
            Err(HaltError::Timeout) => (),
            _ => panic!(
                "BUG: join result was supposed to be HaltError::Timeout but was instead: {:?}",
                res
            ),
        }
    });
}

#[test]
fn test_halthandle_panic() {
    let rt = tokio::runtime::Runtime::new().unwrap();
    rt.block_on(async {
        let handle = Mutex::new(HaltHandle::new());

        spawn_on(&handle, |_| async {
            panic!("Things aren't going well");
        });

        handle.lock().unwrap().ready();
        handle.lock().unwrap().halt();
        let res = join_tasks(&handle, Some(Duration::from_millis(100))).await;

        // Verify we've got a join error
        match &res {
            Err(HaltError::Join(_)) => (),
            _ => panic!(
                "BUG: join result was supposed to be HaltError::Join but was instead: {:?}",
                res
            ),
        }
    });
}

#[test]
fn join_stays_pending_without_halt() {
    let rt = tokio::runtime::Runtime::new().unwrap();
    rt.block_on(async {
        let handle = Mutex::new(HaltHandle::new());

        spawn_on(&handle, |tripwire| wait_for_fire(tripwire));
        handle.lock().unwrap().ready();

        // Spawning and readying alone must not release the joiner: the wait
        // on the halt notifier is still pending well past a generous delay.
        let notify = handle.lock().unwrap().notifier().clone();
        let waited = tokio::time::timeout(Duration::from_millis(200), notify.notified()).await;
        assert!(waited.is_err());

        // Only halting releases it.
        handle.lock().unwrap().halt();
        join_tasks(&handle, None).await.expect("BUG: join() failed");
    });
}

#[test]
fn halt_is_idempotent() {
    let rt = tokio::runtime::Runtime::new().unwrap();
    rt.block_on(async {
        let handle = Mutex::new(HaltHandle::new());

        for _ in 0..3 {
            spawn_on(&handle, |tripwire| wait_for_fire(tripwire));
        }
        handle.lock().unwrap().ready();

        // Any number of halts beyond the first has no further effect: the
        // join still collects every task and resolves with success.
        handle.lock().unwrap().halt();
        handle.lock().unwrap().halt();
        handle.lock().unwrap().halt();
        join_tasks(&handle, None).await.expect("BUG: join() failed");
    });
}

#[test]
fn take_tasks_is_single_use() {
    let mut handle = HaltHandle::new();
    assert!(handle.take_tasks().is_some());
    assert!(handle.take_tasks().is_none());
}

#[test]
fn ctrlc_install_claimed_once() {
    let mut handle = HaltHandle::new();
    assert!(handle.claim_ctrlc_install());
    assert!(!handle.claim_ctrlc_install());
    assert!(!handle.claim_ctrlc_install());
}
