//! The capability contract every actor implementation satisfies, and the two
//! mutually exclusive execution-flavor markers.

use vstd::prelude::*;

use crate::mailbox::QueueCapacity;

verus! {

/// An actor has an internal state and processes a stream of messages from
/// its own mailbox. While processing a message it typically updates its
/// state and emits messages to other actors.
///
/// Every implementation is exactly one of two flavors, never both: a
/// [`SyncActor`] runs on a blocking worker thread, an [`AsyncActor`] runs as
/// a cooperatively scheduled task. The messaging operations of
/// `ActorContext` are gated on the matching marker.
pub trait Actor: Sized {
    /// The type of message this actor receives.
    type Message;

    /// A piece of state that can be snapshotted for tests, admin views and
    /// termination reports.
    type ObservableState;

    /// A name identifying the kind of actor. It need not be instance-unique;
    /// implementations commonly answer with their own type's name.
    fn name(&self) -> String;

    /// The sizing policy of this actor's mailbox, fixed when the actor is
    /// spawned. Unbounded unless overridden.
    fn queue_capacity(&self) -> QueueCapacity {
        QueueCapacity::Unbounded
    }

    /// Extracts a snapshot of the observable state. It should return fast,
    /// but it is only called on termination or on demand, never per message.
    fn observable_state(&self) -> Self::ObservableState;
}

/// Marker of the blocking-thread flavor: handlers run to completion on a
/// worker thread and genuine blocking calls are permitted.
pub trait SyncActor: Actor {

}

/// Marker of the cooperative flavor: handlers run as one logical task on a
/// multiplexed scheduler and must never block a thread; every wait is a
/// suspension point that yields the worker.
pub trait AsyncActor: Actor {

}

} // verus!
