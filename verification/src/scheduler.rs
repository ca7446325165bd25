//! The timer service, addressed by every actor as a peer: it accepts
//! schedule requests and, once their delay has elapsed, delivers the carried
//! message into the requesting actor's mailbox as a high-priority command.

use vstd::prelude::*;

use crate::mailbox::{Command, Mailbox};

verus! {

/// What an actor sends to the scheduler's mailbox.
pub enum SchedulerMessage<M> {
    /// After `delay_ms` elapses, deliver `msg` to the requesting actor's own
    /// mailbox ahead of its ordinary queue.
    ScheduleEvent { delay_ms: u64, msg: M },
}

/// A request the scheduler has accepted, stamped with the absolute instant
/// at which it becomes due.
pub struct TimedEvent<M> {
    fire_at_ms: u64,
    msg: M,
}

impl<M> TimedEvent<M> {
    /// The absolute instant (milliseconds) at which the event becomes due.
    pub closed spec fn fire_at(&self) -> u64 {
        self.fire_at_ms
    }

    /// The message to deliver when the event fires.
    pub closed spec fn message(&self) -> M {
        self.msg
    }
}

/// The scheduler's state: its clock and the accepted events, in arrival
/// order. Time only moves forward, and an event fires exactly once, never
/// before its due instant.
pub struct Scheduler<M> {
    now_ms: u64,
    pending: Vec<TimedEvent<M>>,
}

impl<M> Scheduler<M> {
    /// The scheduler's clock, in milliseconds.
    pub closed spec fn now(&self) -> u64 {
        self.now_ms
    }

    /// The accepted events in arrival order.
    pub closed spec fn events(&self) -> Seq<TimedEvent<M>> {
        self.pending@
    }

    /// Whether the front event is due at the current clock: the only
    /// condition under which the scheduler delivers anything.
    pub open spec fn front_due(&self) -> bool {
        self.events().len() > 0 && self.events()[0].fire_at() <= self.now()
    }

    pub fn new(now_ms: u64) -> (r: Scheduler<M>)
        ensures
            r.now() == now_ms,
            r.events() == Seq::<TimedEvent<M>>::empty(),
    {
        Scheduler { now_ms, pending: Vec::new() }
    }

    /// Accepts one schedule request: the event becomes due exactly `delay_ms`
    /// after the instant of acceptance.
    pub fn accept(&mut self, req: SchedulerMessage<M>)
        requires
            req matches SchedulerMessage::ScheduleEvent { delay_ms, .. } ==> old(self).now()
                + delay_ms <= u64::MAX,
        ensures
            final(self).now() == old(self).now(),
            (req matches SchedulerMessage::ScheduleEvent { delay_ms, msg } ==> {
                &&& final(self).events().len() == old(self).events().len() + 1
                &&& final(self).events().last().fire_at() == old(self).now() + delay_ms
                &&& final(self).events().last().message() == msg
                &&& final(self).events().subrange(0, old(self).events().len() as int) == old(
                    self,
                ).events()
            }),
    {
        match req {
            SchedulerMessage::ScheduleEvent { delay_ms, msg } => {
                let fire_at_ms: u64 = self.now_ms + delay_ms;
                self.pending.push(TimedEvent { fire_at_ms, msg });
                proof {
                    assert(self.pending@.subrange(0, old(self).pending@.len() as int) =~= old(
                        self,
                    ).pending@);
                }
            },
        }
    }

    /// Moves the clock forward. Time never goes back.
    pub fn advance_to(&mut self, t_ms: u64)
        requires
            t_ms >= old(self).now(),
        ensures
            final(self).now() == t_ms,
            final(self).events() == old(self).events(),
    {
        self.now_ms = t_ms;
    }

    /// Fires the front event if it is due: the carried message goes to the
    /// target mailbox as a high-priority command. A delivery that fails
    /// because the target is gone is swallowed — scheduling is best-effort —
    /// but the event is consumed either way. Returns whether an event fired.
    pub fn deliver_front_due(&mut self, target: &mut Mailbox<M>) -> (r: bool)
        ensures
            r == old(self).front_due(),
            final(self).now() == old(self).now(),
            !old(self).front_due() ==> {
                &&& final(self).events() == old(self).events()
                &&& *final(target) == *old(target)
            },
            old(self).front_due() ==> {
                &&& final(self).events() == old(self).events().subrange(
                    1,
                    old(self).events().len() as int,
                )
                &&& final(target).same_channel(old(target))
                &&& final(target).messages_spec() == old(target).messages_spec()
                &&& (old(target).is_open() ==> final(target).commands_spec() == old(
                    target,
                ).commands_spec().push(old(self).events()[0].message()))
                &&& (!old(target).is_open() ==> final(target).commands_spec() == old(
                    target,
                ).commands_spec())
            },
    {
        if self.pending.len() == 0 {
            return false;
        }
        if self.pending[0].fire_at_ms > self.now_ms {
            return false;
        }
        let ev = self.pending.remove(0);
        proof {
            assert(self.pending@ =~= old(self).pending@.subrange(
                1,
                old(self).pending@.len() as int,
            ));
        }
        let _ = target.send_command(Command::HighPriorityMessage(ev.msg));
        true
    }
}

/// A scheduled message is never delivered early. A request with delay `d`
/// accepted when the scheduler's clock read `t0` is stamped due at `t0 + d`
/// (the `accept` contract); this lemma states the other half: as long as the
/// clock has not reached an event's due instant, the scheduler cannot fire
/// it.
pub proof fn lemma_no_early_delivery<M>(s: Scheduler<M>, t0: u64, d: u64)
    requires
        s.events().len() > 0,
        s.events()[0].fire_at() == t0 + d,
        s.now() < t0 + d,
    ensures
        !s.front_due(),
{
}

} // verus!
