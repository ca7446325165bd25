//! Core of an actor-execution runtime: the termination taxonomy, the per-actor
//! context handle, and the backpressure-safe messaging protocol that keeps a
//! sender blocked on a saturated peer mailbox from being mistaken for a hung
//! actor by an external liveness monitor.

pub mod actor;
pub mod actor_state;
pub mod context;
pub mod kill_switch;
pub mod mailbox;
pub mod progress;
pub mod scheduler;
pub mod termination;

pub use actor::Actor;
pub use actor::AsyncActor;
pub use actor::SyncActor;
pub use actor_state::ActorState;
pub use context::ActorContext;
pub use context::ActorContextInner;
pub use context::PeerSend;
pub use context::PendingSelfSend;
pub use context::PendingSend;
pub use context::SelfSend;
pub use kill_switch::KillSwitch;
pub use mailbox::Command;
pub use mailbox::Mailbox;
pub use mailbox::QueueCapacity;
pub use mailbox::TrySend;
pub use progress::Progress;
pub use progress::ProtectZoneGuard;
pub use scheduler::Scheduler;
pub use scheduler::SchedulerMessage;
pub use termination::ActorTermination;
pub use termination::SendError;
