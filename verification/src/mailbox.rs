//! The ordered message queue belonging to one actor, with a separate
//! high-priority command lane that is drained ahead of ordinary messages.

use vstd::prelude::*;

use crate::termination::SendError;

verus! {

/// The sizing policy of an actor's mailbox, chosen when the actor is spawned.
#[derive(Clone, Copy, Debug, PartialEq, Eq, Structural)]
pub enum QueueCapacity {
    /// The ordinary queue never fills: a send always finds room.
    Unbounded,
    /// The ordinary queue holds at most this many undelivered messages;
    /// further sends meet back-pressure.
    Bounded(usize),
}

/// An out-of-band delivery: commands bypass the ordinary queue and its
/// capacity bound. Supervisory commands live with the run loop, outside this
/// core; the one command this core issues is the timer wake-up.
pub enum Command<M> {
    /// Deliver this message ahead of every ordinary message, so that timed
    /// wake-ups are not starved behind a backlog.
    HighPriorityMessage(M),
}

/// The outcome of one immediate, non-waiting enqueue attempt. The failing
/// outcomes hand the message back so the sender can hold on to it.
pub enum TrySend<M> {
    /// The message sits at the back of the ordinary queue.
    Enqueued,
    /// The ordinary queue is at capacity; the sender must wait for room.
    Full(M),
    /// The receiving actor is gone; no send will ever succeed again.
    Closed(M),
}

/// One actor's mailbox: its display name, capacity policy, whether the
/// receiving actor is still there, and the two delivery lanes.
pub struct Mailbox<M> {
    instance_name: String,
    capacity: QueueCapacity,
    connected: bool,
    commands: Vec<M>,
    messages: Vec<M>,
}

impl<M> Mailbox<M> {
    /// The display name of the owning actor.
    pub closed spec fn name(&self) -> Seq<char> {
        self.instance_name@
    }

    pub closed spec fn capacity_spec(&self) -> QueueCapacity {
        self.capacity
    }

    /// Whether the receiving actor is still there to drain the queue.
    pub closed spec fn is_open(&self) -> bool {
        self.connected
    }

    /// The high-priority lane, front first.
    pub closed spec fn commands_spec(&self) -> Seq<M> {
        self.commands@
    }

    /// The ordinary lane, front first.
    pub closed spec fn messages_spec(&self) -> Seq<M> {
        self.messages@
    }

    /// Whether one more ordinary message fits without back-pressure.
    pub open spec fn has_room(&self) -> bool {
        match self.capacity_spec() {
            QueueCapacity::Unbounded => true,
            QueueCapacity::Bounded(n) => self.messages_spec().len() < n,
        }
    }

    /// True of two mailbox values that differ at most in their queues: same
    /// owner, same policy, same connection state.
    pub open spec fn same_channel(&self, other: &Mailbox<M>) -> bool {
        &&& other.name() == self.name()
        &&& other.capacity_spec() == self.capacity_spec()
        &&& other.is_open() == self.is_open()
    }

    /// What the owning actor processes next: the front command if any,
    /// otherwise the front ordinary message.
    pub open spec fn next_to_process(&self) -> Option<M> {
        if self.commands_spec().len() > 0 {
            Some(self.commands_spec()[0])
        } else if self.messages_spec().len() > 0 {
            Some(self.messages_spec()[0])
        } else {
            None
        }
    }

    pub fn new(instance_name: String, capacity: QueueCapacity) -> (r: Mailbox<M>)
        ensures
            r.name() == instance_name@,
            r.capacity_spec() == capacity,
            r.is_open(),
            r.commands_spec() == Seq::<M>::empty(),
            r.messages_spec() == Seq::<M>::empty(),
    {
        Mailbox {
            instance_name,
            capacity,
            connected: true,
            commands: Vec::new(),
            messages: Vec::new(),
        }
    }

    /// The owning actor's display name, for tracing and for deriving the
    /// context's instance name at construction.
    pub fn actor_instance_name(&self) -> (r: String)
        ensures
            r@ == self.name(),
    {
        self.instance_name.clone()
    }

    /// One immediate enqueue attempt on the ordinary lane: never waits.
    pub fn try_send_message(&mut self, msg: M) -> (r: TrySend<M>)
        ensures
            final(self).same_channel(old(self)),
            final(self).commands_spec() == old(self).commands_spec(),
            !old(self).is_open() ==> {
                &&& r == TrySend::Closed(msg)
                &&& final(self).messages_spec() == old(self).messages_spec()
            },
            old(self).is_open() && old(self).has_room() ==> {
                &&& r == TrySend::<M>::Enqueued
                &&& final(self).messages_spec() == old(self).messages_spec().push(msg)
            },
            old(self).is_open() && !old(self).has_room() ==> {
                &&& r == TrySend::Full(msg)
                &&& final(self).messages_spec() == old(self).messages_spec()
            },
    {
        if !self.connected {
            return TrySend::Closed(msg);
        }
        let fits: bool = match self.capacity {
            QueueCapacity::Unbounded => true,
            QueueCapacity::Bounded(n) => self.messages.len() < n,
        };
        if fits {
            self.messages.push(msg);
            TrySend::Enqueued
        } else {
            TrySend::Full(msg)
        }
    }

    /// Enqueues an out-of-band command. The command lane is not subject to
    /// the capacity policy; the send fails only if the receiver is gone.
    pub fn send_command(&mut self, cmd: Command<M>) -> (r: Result<(), SendError>)
        ensures
            final(self).same_channel(old(self)),
            final(self).messages_spec() == old(self).messages_spec(),
            !old(self).is_open() ==> {
                &&& r == Result::<(), SendError>::Err(SendError::Disconnected)
                &&& final(self).commands_spec() == old(self).commands_spec()
            },
            old(self).is_open() ==> {
                &&& r == Result::<(), SendError>::Ok(())
                &&& (cmd matches Command::HighPriorityMessage(m) ==> final(self).commands_spec()
                    == old(self).commands_spec().push(m))
            },
    {
        if !self.connected {
            return Err(SendError::Disconnected);
        }
        match cmd {
            Command::HighPriorityMessage(m) => {
                self.commands.push(m);
            },
        }
        Ok(())
    }

    /// The receiving side takes the next item: every pending command comes
    /// out before any ordinary message.
    pub fn pop_next(&mut self) -> (r: Option<M>)
        ensures
            final(self).same_channel(old(self)),
            r == old(self).next_to_process(),
            old(self).commands_spec().len() > 0 ==> {
                &&& final(self).commands_spec() == old(self).commands_spec().subrange(
                    1,
                    old(self).commands_spec().len() as int,
                )
                &&& final(self).messages_spec() == old(self).messages_spec()
            },
            old(self).commands_spec().len() == 0 && old(self).messages_spec().len() > 0 ==> {
                &&& final(self).commands_spec() == old(self).commands_spec()
                &&& final(self).messages_spec() == old(self).messages_spec().subrange(
                    1,
                    old(self).messages_spec().len() as int,
                )
            },
            old(self).commands_spec().len() == 0 && old(self).messages_spec().len() == 0
                ==> *final(self) == *old(self),
    {
        if self.commands.len() > 0 {
            let m = self.commands.remove(0);
            proof {
                assert(self.commands@ =~= old(self).commands@.subrange(
                    1,
                    old(self).commands@.len() as int,
                ));
            }
            Some(m)
        } else if self.messages.len() > 0 {
            let m = self.messages.remove(0);
            proof {
                assert(self.messages@ =~= old(self).messages@.subrange(
                    1,
                    old(self).messages@.len() as int,
                ));
            }
            Some(m)
        } else {
            None
        }
    }

    /// Marks the receiving actor as gone: every later send fails.
    pub fn close(&mut self)
        ensures
            !final(self).is_open(),
            final(self).name() == old(self).name(),
            final(self).capacity_spec() == old(self).capacity_spec(),
            final(self).commands_spec() == old(self).commands_spec(),
            final(self).messages_spec() == old(self).messages_spec(),
    {
        self.connected = false;
    }
}

/// A pending high-priority command is processed ahead of every ordinary
/// message, however long the ordinary backlog already is: timer wake-ups and
/// supervisory deliveries are exempt from arrival order by design.
pub proof fn lemma_high_priority_first<M>(m: Mailbox<M>)
    requires
        m.commands_spec().len() > 0,
    ensures
        m.next_to_process() == Some(m.commands_spec()[0]),
{
}

} // verus!
