//! A minimal actor runtime: isolated units of state communicate only through
//! messages delivered to a private bounded FIFO mailbox, and a shared executor
//! runs each actor's processing loop to completion.
//!
//! Two policies are fixed deliberately. Shutdown is graceful: it closes every
//! mailbox and drains every loop, so every message admitted before the
//! shutdown is still handled; since shutting down takes exclusive access to
//! the system, it cannot be rendered ineffective by another holder. A failure
//! inside a handler propagates to the caller that drove the delivery; there
//! is no supervision or restart, and the verified handlers of this crate do
//! not fail.

mod actor;
mod executor;
mod mailbox;
mod message;
mod system;
mod workload;

pub use actor::Actor;
pub use actor::ActorContainer;
pub use actor::ActorRef;
pub use actor::SendError;
pub use actor::enqueue_outcome;
pub use actor::lemma_fifo_per_actor;
pub use actor::lemma_no_message_lost;
pub use actor::lemma_send_after_termination_fails;
pub use actor::run_steps;
pub use executor::Executor;
pub use executor::drained_from;
pub use executor::lemma_state_from_own_messages;
pub use executor::shut_down_from;
pub use mailbox::Mailbox;
pub use mailbox::MAILBOX_CAPACITY;
pub use message::Message;
pub use system::ActorSystem;
pub use workload::ManagerActor;
pub use workload::Work;
pub use workload::WorkComplete;
pub use workload::WorkerActor;
pub use workload::WorkloadActor;
pub use workload::WorkloadMessage;
pub use workload::work_result;
pub use workload::work_result_spec;
