//! A graceful-shutdown coordinator for groups of concurrently running tasks.
//!
//! The crate provides a single-fire cancellation pair ([`Trigger`] /
//! [`Tripwire`]), a registration channel of task handles terminated by a
//! ready marker ([`TaskMsg`]), and a coordinator ([`HaltHandle`]) that ties
//! them into a spawn / ready / halt / join protocol. The asynchronous glue
//! (awaiting the halt notifier, receiving registration events, awaiting task
//! completion) lives outside this crate; every decision the protocol makes is
//! implemented and specified here.

pub mod handle;
pub mod model;
pub mod outcome;
pub mod registry;
pub mod signal;

pub use handle::HaltHandle;
pub use outcome::{join_outcome, reduce_outcomes, HaltError};
pub use registry::{drain_step, RegistryReceiver, TaskMsg};
pub use signal::{Trigger, Tripwire};
