//! The closed set of reasons an actor's run loop ends, and the send-failure
//! type that feeds into it.

use vstd::prelude::*;

verus! {

/// Why a message could not be delivered.
#[derive(Debug)]
pub enum SendError {
    /// The receiving actor is gone: its mailbox no longer accepts messages.
    Disconnected,
    /// A blocking self-send found its own queue full. An actor is the only
    /// consumer of its own queue, so waiting on it could never complete;
    /// the attempt fails fast instead.
    WouldDeadlock,
}

/// Relied on as an opaque application-error payload: `anyhow::Error` carries
/// the cause of a `Failure` termination without this core reading into it.
#[verifier::external_type_specification]
#[verifier::external_body]
pub struct ExAnyhowError(anyhow::Error);

/// Why an actor's run loop ended.
pub enum ActorTermination {
    /// The actor was stopped in response to an explicit stop command.
    OnDemand,
    /// A send to a peer actor failed because the peer's channel is closed.
    DownstreamClosed,
    /// An arbitrary application error occurred; the cause is kept opaquely.
    Failure(anyhow::Error),
    /// The mailbox was exhausted with no further senders, or the handler
    /// signaled natural completion: a graceful end of work.
    Finished,
    /// The actor observed that the shared kill switch was already tripped
    /// and is reacting to, not causing, the failure.
    KillSwitch,
}

impl ActorTermination {
    /// Whether this termination is the graceful end-of-work reason.
    pub open spec fn is_finished_spec(&self) -> bool {
        self is Finished
    }

    pub fn is_finished(&self) -> (r: bool)
        ensures
            r == self.is_finished_spec(),
    {
        matches!(self, ActorTermination::Finished)
    }

    /// The single authoritative classification used to decide kill-switch
    /// escalation: only `DownstreamClosed` and `Failure` count as failures.
    pub open spec fn is_failure_spec(&self) -> bool {
        match self {
            ActorTermination::OnDemand => false,
            ActorTermination::DownstreamClosed => true,
            ActorTermination::Failure(_) => true,
            ActorTermination::Finished => false,
            ActorTermination::KillSwitch => false,
        }
    }

    pub fn is_failure(&self) -> (r: bool)
        ensures
            r == self.is_failure_spec(),
    {
        match self {
            ActorTermination::OnDemand => false,
            ActorTermination::DownstreamClosed => true,
            ActorTermination::Failure(_) => true,
            ActorTermination::Finished => false,
            ActorTermination::KillSwitch => false,
        }
    }
}

/// Every send error collapses to `DownstreamClosed`: the only actionable fact
/// at this layer is that a downstream actor is gone. The conversion is total
/// and deliberately discards which kind of send failure occurred.
impl From<SendError> for ActorTermination {
    fn from(_e: SendError) -> (r: ActorTermination)
        ensures
            r == ActorTermination::DownstreamClosed,
    {
        ActorTermination::DownstreamClosed
    }
}

impl vstd::std_specs::convert::FromSpecImpl<SendError> for ActorTermination {
    open spec fn obeys_from_spec() -> bool {
        true
    }

    open spec fn from_spec(e: SendError) -> ActorTermination {
        ActorTermination::DownstreamClosed
    }
}

/// An application error becomes a `Failure` termination carrying its cause.
impl From<anyhow::Error> for ActorTermination {
    fn from(e: anyhow::Error) -> (r: ActorTermination)
        ensures
            r == ActorTermination::Failure(e),
    {
        ActorTermination::Failure(e)
    }
}

impl vstd::std_specs::convert::FromSpecImpl<anyhow::Error> for ActorTermination {
    open spec fn obeys_from_spec() -> bool {
        true
    }

    open spec fn from_spec(e: anyhow::Error) -> ActorTermination {
        ActorTermination::Failure(e)
    }
}

} // verus!
