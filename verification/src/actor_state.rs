//! The run-state of an actor, mutated only by the surrounding run loop.

use vstd::prelude::*;

verus! {

/// The run-state stored in an actor context. `Terminated` is terminal: once
/// reached, `pause` and `resume` leave the state unchanged.
#[derive(Clone, Copy, Debug, PartialEq, Eq, Structural)]
pub enum ActorState {
    Running,
    Paused,
    Terminated,
}

/// The state after a `pause` request: a no-op on a terminated actor.
pub open spec fn after_pause(s: ActorState) -> ActorState {
    if s is Terminated {
        ActorState::Terminated
    } else {
        ActorState::Paused
    }
}

/// The state after a `resume` request: a no-op on a terminated actor.
pub open spec fn after_resume(s: ActorState) -> ActorState {
    if s is Terminated {
        ActorState::Terminated
    } else {
        ActorState::Running
    }
}

} // verus!
