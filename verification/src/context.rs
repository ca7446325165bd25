//! The per-actor handle: identity, own mailbox, liveness tracker, kill
//! switch, scheduler link and run-state, together with the messaging
//! operations actors call from inside their handlers.
//!
//! The central rule of the send protocol: any send that may wait on a peer's
//! saturated queue runs inside a liveness exemption, so the external monitor
//! can tell healthy back-pressure from a hang. A wait is represented
//! explicitly: a send against a full peer queue hands back a pending-send
//! value that keeps the exemption, and completing or retrying the send hands
//! it in again.

use vstd::prelude::*;

use crate::actor::{Actor, AsyncActor, SyncActor};
use crate::actor_state::{after_pause, after_resume, ActorState};
use crate::kill_switch::KillSwitch;
use crate::mailbox::{Mailbox, TrySend};
use crate::progress::{
    activity_seen, after_activity_check, after_enter, after_exit, after_record, guard_count_of,
    state_wf, Progress, ProgressState, ProtectZoneGuard,
};
use crate::scheduler::{Scheduler, SchedulerMessage};
use crate::termination::{ActorTermination, SendError};

verus! {

/// The shared state behind an actor context. The instance name and the
/// own-mailbox binding never change after construction; only the run-state,
/// the liveness tracker and the kill switch mutate over the context's life.
pub struct ActorContextInner<A: Actor> {
    actor_instance_name: String,
    self_mailbox: Mailbox<A::Message>,
    progress: Progress,
    kill_switch: KillSwitch,
    scheduler_mailbox: Mailbox<SchedulerMessage<A::Message>>,
    actor_state: ActorState,
}

/// The handle a running actor holds on its own execution environment.
pub struct ActorContext<A: Actor> {
    inner: ActorContextInner<A>,
}

/// A peer send that found the peer's queue full and is waiting for room. It
/// holds the message still to deliver and the liveness exemption acquired
/// for the wait; both are handed back to a completing call.
pub struct PendingSend<M> {
    guard: ProtectZoneGuard,
    msg: M,
}

impl<M> PendingSend<M> {
    /// The message still to deliver.
    pub closed spec fn message(&self) -> M {
        self.msg
    }
}

/// The outcome of one step of a peer send.
pub enum PeerSend<M> {
    /// The message sits in the peer's queue.
    Sent,
    /// The peer's queue is full: the sender is waiting, under a liveness
    /// exemption, for the peer to drain a slot.
    Suspended(PendingSend<M>),
    /// The send failed for good.
    Rejected(SendError),
}

/// A cooperative self-send that found the actor's own queue full and is
/// logically suspended until the actor drains a slot. No liveness exemption
/// is involved: a self-send never crosses the monitor's actor boundary.
pub struct PendingSelfSend<M> {
    msg: M,
}

impl<M> PendingSelfSend<M> {
    /// The message still to deliver.
    pub closed spec fn message(&self) -> M {
        self.msg
    }
}

/// The outcome of one step of a cooperative self-send.
pub enum SelfSend<M> {
    /// The message sits in the actor's own queue.
    Sent,
    /// The own queue is full: the send is suspended until the actor itself
    /// frees a slot.
    Suspended(PendingSelfSend<M>),
    /// The send failed for good.
    Rejected(SendError),
}

impl<A: Actor> ActorContext<A> {
    /// The instance name, fixed at construction from the own mailbox.
    pub closed spec fn name_seq(&self) -> Seq<char> {
        self.inner.actor_instance_name@
    }

    /// The actor's own mailbox.
    pub closed spec fn own_mailbox(&self) -> Mailbox<A::Message> {
        self.inner.self_mailbox
    }

    /// The liveness tracker's current reading.
    pub closed spec fn progress_state(&self) -> ProgressState {
        self.inner.progress.state_spec()
    }

    /// Whether the shared kill switch is still untripped.
    pub closed spec fn kill_switch_alive(&self) -> bool {
        self.inner.kill_switch.is_alive_spec()
    }

    /// The link to the scheduler service's mailbox.
    pub closed spec fn scheduler_queue(&self) -> Mailbox<SchedulerMessage<A::Message>> {
        self.inner.scheduler_mailbox
    }

    /// The run-state.
    pub closed spec fn run_state(&self) -> ActorState {
        self.inner.actor_state
    }

    pub open spec fn wf(&self) -> bool {
        state_wf(self.progress_state())
    }

    /// Whether the actor currently holds at least one liveness exemption.
    pub open spec fn is_protected(&self) -> bool {
        self.progress_state() is ProtectedZone
    }

    /// How many liveness exemptions the actor holds.
    pub open spec fn guard_count(&self) -> u64 {
        guard_count_of(self.progress_state())
    }

    /// True of two context values that agree on everything but the liveness
    /// tracker.
    pub open spec fn same_but_progress(&self, other: &Self) -> bool {
        &&& other.name_seq() == self.name_seq()
        &&& other.own_mailbox() == self.own_mailbox()
        &&& other.kill_switch_alive() == self.kill_switch_alive()
        &&& other.scheduler_queue() == self.scheduler_queue()
        &&& other.run_state() == self.run_state()
    }

    /// Builds the context for one spawned actor instance, before its run
    /// loop starts. The instance name is derived from the own mailbox and
    /// never changes afterwards.
    pub fn new(
        self_mailbox: Mailbox<A::Message>,
        kill_switch: KillSwitch,
        scheduler_mailbox: Mailbox<SchedulerMessage<A::Message>>,
    ) -> (r: Self)
        ensures
            r.name_seq() == self_mailbox.name(),
            r.own_mailbox() == self_mailbox,
            r.kill_switch_alive() == kill_switch.is_alive_spec(),
            r.scheduler_queue() == scheduler_mailbox,
            r.run_state() == ActorState::Running,
            r.progress_state() == ProgressState::Updated,
            r.wf(),
    {
        let actor_instance_name = self_mailbox.actor_instance_name();
        ActorContext {
            inner: ActorContextInner {
                actor_instance_name,
                self_mailbox,
                progress: Progress::new(),
                kill_switch,
                scheduler_mailbox,
                actor_state: ActorState::Running,
            },
        }
    }

    /// Read access to the actor's own mailbox, for publishing a reply
    /// address to peers. No side effect.
    pub fn mailbox(&self) -> (r: &Mailbox<A::Message>)
        ensures
            *r == self.own_mailbox(),
    {
        &self.inner.self_mailbox
    }

    /// The stable identity string fixed at construction.
    pub fn actor_instance_name(&self) -> (r: &str)
        ensures
            r@ == self.name_seq(),
    {
        self.inner.actor_instance_name.as_str()
    }

    /// Read access to the shared fail-fast flag. An escape hatch: the
    /// idiomatic failure path is to return a failing termination and let
    /// `terminate` escalate it.
    pub fn kill_switch(&self) -> (r: &KillSwitch)
        ensures
            r.is_alive_spec() == self.kill_switch_alive(),
    {
        &self.inner.kill_switch
    }

    /// Read access to the liveness tracker, for the monitoring side.
    pub fn progress(&self) -> (r: &Progress)
        ensures
            r.state_spec() == self.progress_state(),
    {
        &self.inner.progress
    }

    /// Acquires a liveness exemption: while the returned guard is out, the
    /// external monitor must not classify this actor as stalled, however
    /// long it goes without fresh progress signals. The guard is given back
    /// through `release_protect_zone`.
    pub fn protect_zone(&mut self) -> (g: ProtectZoneGuard)
        requires
            old(self).guard_count() < u64::MAX,
        ensures
            old(self).same_but_progress(final(self)),
            final(self).progress_state() == after_enter(old(self).progress_state()),
            final(self).is_protected(),
            final(self).wf(),
    {
        self.inner.progress.protect_zone()
    }

    /// Gives a liveness exemption back. Releasing the last one counts as
    /// progress: the protected operation completed.
    pub fn release_protect_zone(&mut self, g: ProtectZoneGuard)
        requires
            old(self).is_protected(),
            old(self).wf(),
        ensures
            old(self).same_but_progress(final(self)),
            final(self).progress_state() == after_exit(old(self).progress_state()),
            final(self).wf(),
    {
        self.inner.progress.release_protect_zone(g);
    }

    /// Manually resets the liveness clock without acquiring an exemption;
    /// for long single-message handlers that must periodically prove they
    /// are advancing.
    pub fn record_progress(&mut self)
        ensures
            old(self).same_but_progress(final(self)),
            final(self).progress_state() == after_record(old(self).progress_state()),
            old(self).wf() ==> final(self).wf(),
    {
        self.inner.progress.record_progress();
    }

    /// The external monitor's poll: whether any activity was seen since the
    /// last poll. A protected actor always reports activity and keeps its
    /// exemption, so back-pressure waits are never read as a hang.
    pub fn registered_activity_since_last_call(&mut self) -> (r: bool)
        ensures
            old(self).same_but_progress(final(self)),
            r == activity_seen(old(self).progress_state()),
            final(self).progress_state() == after_activity_check(old(self).progress_state()),
            old(self).wf() ==> final(self).wf(),
    {
        self.inner.progress.registered_activity_since_last_call()
    }

    /// The current run-state; readable at any point of the actor's life.
    pub fn get_state(&self) -> (r: ActorState)
        ensures
            r == self.run_state(),
    {
        self.inner.actor_state
    }

    /// For the surrounding run loop, not actor-authored code: suspends
    /// message processing. A no-op once the actor is terminated.
    pub fn pause(&mut self)
        ensures
            final(self).run_state() == after_pause(old(self).run_state()),
            final(self).name_seq() == old(self).name_seq(),
            final(self).own_mailbox() == old(self).own_mailbox(),
            final(self).kill_switch_alive() == old(self).kill_switch_alive(),
            final(self).scheduler_queue() == old(self).scheduler_queue(),
            final(self).progress_state() == old(self).progress_state(),
    {
        match self.inner.actor_state {
            ActorState::Terminated => {},
            _ => {
                self.inner.actor_state = ActorState::Paused;
            },
        }
    }

    /// For the surrounding run loop: resumes message processing. A no-op
    /// once the actor is terminated.
    pub fn resume(&mut self)
        ensures
            final(self).run_state() == after_resume(old(self).run_state()),
            final(self).name_seq() == old(self).name_seq(),
            final(self).own_mailbox() == old(self).own_mailbox(),
            final(self).kill_switch_alive() == old(self).kill_switch_alive(),
            final(self).scheduler_queue() == old(self).scheduler_queue(),
            final(self).progress_state() == old(self).progress_state(),
    {
        match self.inner.actor_state {
            ActorState::Terminated => {},
            _ => {
                self.inner.actor_state = ActorState::Running;
            },
        }
    }

    /// For the surrounding run loop: records that the actor's run loop has
    /// ended. The shared kill switch is tripped if and only if the reason
    /// classifies as a failure; every other reason ends quietly, with no
    /// cross-actor effect. The run-state becomes terminal.
    pub fn terminate(&mut self, termination: &ActorTermination)
        ensures
            final(self).run_state() == ActorState::Terminated,
            final(self).kill_switch_alive() == (old(self).kill_switch_alive()
                && !termination.is_failure_spec()),
            final(self).name_seq() == old(self).name_seq(),
            final(self).own_mailbox() == old(self).own_mailbox(),
            final(self).scheduler_queue() == old(self).scheduler_queue(),
            final(self).progress_state() == old(self).progress_state(),
    {
        if termination.is_failure() {
            self.inner.kill_switch.kill();
        }
        self.inner.actor_state = ActorState::Terminated;
    }

    /// The scheduler service's side of the link: in the running system the
    /// timer service drains this queue. It takes the next pending schedule
    /// request, if any.
    pub fn take_scheduler_request(&mut self) -> (r: Option<SchedulerMessage<A::Message>>)
        ensures
            final(self).name_seq() == old(self).name_seq(),
            final(self).own_mailbox() == old(self).own_mailbox(),
            final(self).kill_switch_alive() == old(self).kill_switch_alive(),
            final(self).run_state() == old(self).run_state(),
            final(self).progress_state() == old(self).progress_state(),
            r == old(self).scheduler_queue().next_to_process(),
            final(self).scheduler_queue().same_channel(&old(self).scheduler_queue()),
            old(self).scheduler_queue().commands_spec().len() == 0
                ==> final(self).scheduler_queue().commands_spec()
                == old(self).scheduler_queue().commands_spec(),
            old(self).scheduler_queue().commands_spec().len() == 0
                && old(self).scheduler_queue().messages_spec().len() > 0
                ==> final(self).scheduler_queue().messages_spec()
                == old(self).scheduler_queue().messages_spec().subrange(
                1,
                old(self).scheduler_queue().messages_spec().len() as int,
            ),
            old(self).scheduler_queue().commands_spec().len() == 0
                && old(self).scheduler_queue().messages_spec().len() == 0
                ==> final(self).scheduler_queue() == old(self).scheduler_queue(),
    {
        self.inner.scheduler_mailbox.pop_next()
    }

    /// The receiving side of the actor's own mailbox, used by the run loop:
    /// takes the next item to process, every high-priority command ahead of
    /// every ordinary message.
    pub fn take_next_message(&mut self) -> (r: Option<A::Message>)
        ensures
            final(self).name_seq() == old(self).name_seq(),
            final(self).kill_switch_alive() == old(self).kill_switch_alive(),
            final(self).scheduler_queue() == old(self).scheduler_queue(),
            final(self).run_state() == old(self).run_state(),
            final(self).progress_state() == old(self).progress_state(),
            r == old(self).own_mailbox().next_to_process(),
            final(self).own_mailbox().same_channel(&old(self).own_mailbox()),
            old(self).own_mailbox().commands_spec().len() > 0 ==> {
                &&& final(self).own_mailbox().commands_spec() == old(
                    self,
                ).own_mailbox().commands_spec().subrange(
                    1,
                    old(self).own_mailbox().commands_spec().len() as int,
                )
                &&& final(self).own_mailbox().messages_spec() == old(
                    self,
                ).own_mailbox().messages_spec()
            },
            old(self).own_mailbox().commands_spec().len() == 0 && old(
                self,
            ).own_mailbox().messages_spec().len() > 0 ==> {
                &&& final(self).own_mailbox().commands_spec() == old(
                    self,
                ).own_mailbox().commands_spec()
                &&& final(self).own_mailbox().messages_spec() == old(
                    self,
                ).own_mailbox().messages_spec().subrange(
                    1,
                    old(self).own_mailbox().messages_spec().len() as int,
                )
            },
            old(self).own_mailbox().commands_spec().len() == 0 && old(
                self,
            ).own_mailbox().messages_spec().len() == 0 ==> final(self).own_mailbox() == old(
                self,
            ).own_mailbox(),
    {
        self.inner.self_mailbox.pop_next()
    }

    /// The timer's callback side of deferred self-messaging: lets the
    /// scheduler fire its front event, if due, into this actor's own mailbox
    /// as a high-priority command. Returns whether an event fired; a
    /// delivery that fails because the mailbox is gone is swallowed, since
    /// scheduled delivery is best-effort.
    pub fn deliver_scheduled(&mut self, scheduler: &mut Scheduler<A::Message>) -> (r: bool)
        ensures
            final(self).name_seq() == old(self).name_seq(),
            final(self).kill_switch_alive() == old(self).kill_switch_alive(),
            final(self).scheduler_queue() == old(self).scheduler_queue(),
            final(self).run_state() == old(self).run_state(),
            final(self).progress_state() == old(self).progress_state(),
            r == old(scheduler).front_due(),
            final(scheduler).now() == old(scheduler).now(),
            !old(scheduler).front_due() ==> {
                &&& final(scheduler).events() == old(scheduler).events()
                &&& final(self).own_mailbox() == old(self).own_mailbox()
            },
            old(scheduler).front_due() ==> {
                &&& final(scheduler).events() == old(scheduler).events().subrange(
                    1,
                    old(scheduler).events().len() as int,
                )
                &&& final(self).own_mailbox().same_channel(&old(self).own_mailbox())
                &&& final(self).own_mailbox().messages_spec() == old(
                    self,
                ).own_mailbox().messages_spec()
                &&& (old(self).own_mailbox().is_open() ==> final(self).own_mailbox().commands_spec()
                    == old(self).own_mailbox().commands_spec().push(
                    old(scheduler).events()[0].message(),
                ))
                &&& (!old(self).own_mailbox().is_open()
                    ==> final(self).own_mailbox().commands_spec()
                    == old(self).own_mailbox().commands_spec())
            },
    {
        scheduler.deliver_front_due(&mut self.inner.self_mailbox)
    }
}

/// While a peer send is suspended on a saturated mailbox the sender holds a
/// liveness exemption (the suspended cases of `send_message_blocking`,
/// `complete_send_blocking`, `send_message` and `complete_send` all ensure
/// it), and this lemma states what the exemption buys: however often the
/// external monitor polls such a sender, every poll reports activity and
/// leaves the tracker exactly as it was — healthy back-pressure is never
/// classified as a hang.
pub proof fn lemma_suspended_sender_never_stalled<A: Actor>(ctx: ActorContext<A>)
    requires
        ctx.is_protected(),
    ensures
        activity_seen(ctx.progress_state()),
        after_activity_check(ctx.progress_state()) == ctx.progress_state(),
{
}

impl<A: SyncActor> ActorContext<A> {
    /// One step of a blocking-flavor peer send. The whole attempt runs under
    /// a liveness exemption: a peer with room takes the message at once and
    /// the exemption is released; a closed peer rejects the send and the
    /// exemption is released; a full peer leaves the sender blocked, and the
    /// suspended send keeps the exemption until `complete_send_blocking`
    /// finishes the delivery — so the monitor never mistakes the
    /// back-pressure wait for a hang.
    pub fn send_message_blocking<M>(&mut self, peer: &mut Mailbox<M>, msg: M) -> (r: PeerSend<M>)
        requires
            old(self).wf(),
            old(self).guard_count() < u64::MAX,
        ensures
            old(self).same_but_progress(final(self)),
            final(self).wf(),
            final(peer).same_channel(old(peer)),
            final(peer).commands_spec() == old(peer).commands_spec(),
            !old(peer).is_open() ==> {
                &&& r == PeerSend::<M>::Rejected(SendError::Disconnected)
                &&& final(peer).messages_spec() == old(peer).messages_spec()
                &&& final(self).progress_state() == after_exit(
                    after_enter(old(self).progress_state()),
                )
            },
            old(peer).is_open() && old(peer).has_room() ==> {
                &&& r == PeerSend::<M>::Sent
                &&& final(peer).messages_spec() == old(peer).messages_spec().push(msg)
                &&& final(self).progress_state() == after_exit(
                    after_enter(old(self).progress_state()),
                )
            },
            old(peer).is_open() && !old(peer).has_room() ==> {
                &&& r matches PeerSend::Suspended(p) && p.message() == msg
                &&& final(peer).messages_spec() == old(peer).messages_spec()
                &&& final(self).progress_state() == after_enter(old(self).progress_state())
                &&& final(self).is_protected()
            },
    {
        let guard = self.inner.progress.protect_zone();
        match peer.try_send_message(msg) {
            TrySend::Enqueued => {
                self.inner.progress.release_protect_zone(guard);
                PeerSend::Sent
            },
            TrySend::Closed(_) => {
                self.inner.progress.release_protect_zone(guard);
                PeerSend::Rejected(SendError::Disconnected)
            },
            TrySend::Full(m) => PeerSend::Suspended(PendingSend { guard, msg: m }),
        }
    }

    /// Retries a blocked peer send once the peer may have drained a slot.
    /// The suspended send still holds its liveness exemption; delivery or
    /// rejection releases it, while a still-full peer leaves the sender
    /// blocked and protected exactly as before.
    pub fn complete_send_blocking<M>(
        &mut self,
        peer: &mut Mailbox<M>,
        pending: PendingSend<M>,
    ) -> (r: PeerSend<M>)
        requires
            old(self).wf(),
            old(self).is_protected(),
        ensures
            old(self).same_but_progress(final(self)),
            final(self).wf(),
            final(peer).same_channel(old(peer)),
            final(peer).commands_spec() == old(peer).commands_spec(),
            !old(peer).is_open() ==> {
                &&& r == PeerSend::<M>::Rejected(SendError::Disconnected)
                &&& final(peer).messages_spec() == old(peer).messages_spec()
                &&& final(self).progress_state() == after_exit(old(self).progress_state())
            },
            old(peer).is_open() && old(peer).has_room() ==> {
                &&& r == PeerSend::<M>::Sent
                &&& final(peer).messages_spec() == old(peer).messages_spec().push(pending.message())
                &&& final(self).progress_state() == after_exit(old(self).progress_state())
            },
            old(peer).is_open() && !old(peer).has_room() ==> {
                &&& r matches PeerSend::Suspended(p) && p.message() == pending.message()
                &&& final(peer).messages_spec() == old(peer).messages_spec()
                &&& final(self).progress_state() == old(self).progress_state()
                &&& final(self).is_protected()
            },
    {
        let PendingSend { guard, msg } = pending;
        match peer.try_send_message(msg) {
            TrySend::Enqueued => {
                self.inner.progress.release_protect_zone(guard);
                PeerSend::Sent
            },
            TrySend::Closed(_) => {
                self.inner.progress.release_protect_zone(guard);
                PeerSend::Rejected(SendError::Disconnected)
            },
            TrySend::Full(m) => PeerSend::Suspended(PendingSend { guard, msg: m }),
        }
    }

    /// A blocking-flavor send to the actor's own mailbox: one immediate
    /// attempt, never a wait, and no liveness exemption. An actor is the
    /// only consumer of its own queue, so waiting on it would be a
    /// guaranteed deadlock; if the single attempt cannot complete instantly
    /// — the queue is full, or the mailbox is somehow gone — the send fails
    /// fast with `WouldDeadlock`.
    pub fn send_self_message_blocking(&mut self, msg: A::Message) -> (r: Result<(), SendError>)
        ensures
            final(self).name_seq() == old(self).name_seq(),
            final(self).kill_switch_alive() == old(self).kill_switch_alive(),
            final(self).scheduler_queue() == old(self).scheduler_queue(),
            final(self).run_state() == old(self).run_state(),
            final(self).progress_state() == old(self).progress_state(),
            final(self).own_mailbox().same_channel(&old(self).own_mailbox()),
            final(self).own_mailbox().commands_spec() == old(self).own_mailbox().commands_spec(),
            old(self).own_mailbox().is_open() && old(self).own_mailbox().has_room() ==> {
                &&& r == Result::<(), SendError>::Ok(())
                &&& final(self).own_mailbox().messages_spec() == old(
                    self,
                ).own_mailbox().messages_spec().push(msg)
            },
            !(old(self).own_mailbox().is_open() && old(self).own_mailbox().has_room()) ==> {
                &&& r == Result::<(), SendError>::Err(SendError::WouldDeadlock)
                &&& final(self).own_mailbox().messages_spec() == old(
                    self,
                ).own_mailbox().messages_spec()
            },
    {
        match self.inner.self_mailbox.try_send_message(msg) {
            TrySend::Enqueued => Ok(()),
            TrySend::Full(_) => Err(SendError::WouldDeadlock),
            TrySend::Closed(_) => Err(SendError::WouldDeadlock),
        }
    }

    /// Blocking-flavor deferred self-messaging: asks the scheduler, which is
    /// addressed as a peer, to deliver `msg` back to this actor's own
    /// mailbox as a high-priority command once `after_ms` elapses. The
    /// request travels the protected peer-send path; scheduling is
    /// best-effort, so a request that cannot be enqueued is dropped and no
    /// error is surfaced to the caller.
    pub fn schedule_self_msg_blocking(&mut self, after_ms: u64, msg: A::Message)
        requires
            old(self).wf(),
            old(self).guard_count() < u64::MAX,
        ensures
            final(self).wf(),
            final(self).name_seq() == old(self).name_seq(),
            final(self).own_mailbox() == old(self).own_mailbox(),
            final(self).kill_switch_alive() == old(self).kill_switch_alive(),
            final(self).run_state() == old(self).run_state(),
            final(self).progress_state() == after_exit(after_enter(old(self).progress_state())),
            final(self).scheduler_queue().same_channel(&old(self).scheduler_queue()),
            final(self).scheduler_queue().commands_spec() == old(
                self,
            ).scheduler_queue().commands_spec(),
            old(self).scheduler_queue().is_open() && old(self).scheduler_queue().has_room() ==> {
                final(self).scheduler_queue().messages_spec() == old(
                    self,
                ).scheduler_queue().messages_spec().push(
                    SchedulerMessage::ScheduleEvent { delay_ms: after_ms, msg },
                )
            },
            !(old(self).scheduler_queue().is_open() && old(self).scheduler_queue().has_room())
                ==> final(self).scheduler_queue().messages_spec() == old(
                self,
            ).scheduler_queue().messages_spec(),
    {
        let guard = self.inner.progress.protect_zone();
        let req = SchedulerMessage::ScheduleEvent { delay_ms: after_ms, msg };
        match self.inner.scheduler_mailbox.try_send_message(req) {
            TrySend::Enqueued => {},
            TrySend::Full(_) => {},
            TrySend::Closed(_) => {},
        }
        self.inner.progress.release_protect_zone(guard);
    }
}

impl<A: AsyncActor> ActorContext<A> {
    /// One step of a cooperative-flavor peer send. Identical in contract to
    /// the blocking flavor's: the wait on a saturated peer is a cooperative
    /// suspension rather than a blocked thread, and it runs under the same
    /// liveness exemption, carried by the suspended send until
    /// `complete_send` finishes the delivery.
    pub fn send_message<M>(&mut self, peer: &mut Mailbox<M>, msg: M) -> (r: PeerSend<M>)
        requires
            old(self).wf(),
            old(self).guard_count() < u64::MAX,
        ensures
            old(self).same_but_progress(final(self)),
            final(self).wf(),
            final(peer).same_channel(old(peer)),
            final(peer).commands_spec() == old(peer).commands_spec(),
            !old(peer).is_open() ==> {
                &&& r == PeerSend::<M>::Rejected(SendError::Disconnected)
                &&& final(peer).messages_spec() == old(peer).messages_spec()
                &&& final(self).progress_state() == after_exit(
                    after_enter(old(self).progress_state()),
                )
            },
            old(peer).is_open() && old(peer).has_room() ==> {
                &&& r == PeerSend::<M>::Sent
                &&& final(peer).messages_spec() == old(peer).messages_spec().push(msg)
                &&& final(self).progress_state() == after_exit(
                    after_enter(old(self).progress_state()),
                )
            },
            old(peer).is_open() && !old(peer).has_room() ==> {
                &&& r matches PeerSend::Suspended(p) && p.message() == msg
                &&& final(peer).messages_spec() == old(peer).messages_spec()
                &&& final(self).progress_state() == after_enter(old(self).progress_state())
                &&& final(self).is_protected()
            },
    {
        let guard = self.inner.progress.protect_zone();
        match peer.try_send_message(msg) {
            TrySend::Enqueued => {
                self.inner.progress.release_protect_zone(guard);
                PeerSend::Sent
            },
            TrySend::Closed(_) => {
                self.inner.progress.release_protect_zone(guard);
                PeerSend::Rejected(SendError::Disconnected)
            },
            TrySend::Full(m) => PeerSend::Suspended(PendingSend { guard, msg: m }),
        }
    }

    /// Resumes a suspended cooperative peer send once the peer may have
    /// drained a slot; the suspended send keeps its liveness exemption until
    /// delivery or rejection releases it.
    pub fn complete_send<M>(&mut self, peer: &mut Mailbox<M>, pending: PendingSend<M>) -> (r:
        PeerSend<M>)
        requires
            old(self).wf(),
            old(self).is_protected(),
        ensures
            old(self).same_but_progress(final(self)),
            final(self).wf(),
            final(peer).same_channel(old(peer)),
            final(peer).commands_spec() == old(peer).commands_spec(),
            !old(peer).is_open() ==> {
                &&& r == PeerSend::<M>::Rejected(SendError::Disconnected)
                &&& final(peer).messages_spec() == old(peer).messages_spec()
                &&& final(self).progress_state() == after_exit(old(self).progress_state())
            },
            old(peer).is_open() && old(peer).has_room() ==> {
                &&& r == PeerSend::<M>::Sent
                &&& final(peer).messages_spec() == old(peer).messages_spec().push(pending.message())
                &&& final(self).progress_state() == after_exit(old(self).progress_state())
            },
            old(peer).is_open() && !old(peer).has_room() ==> {
                &&& r matches PeerSend::Suspended(p) && p.message() == pending.message()
                &&& final(peer).messages_spec() == old(peer).messages_spec()
                &&& final(self).progress_state() == old(self).progress_state()
                &&& final(self).is_protected()
            },
    {
        let PendingSend { guard, msg } = pending;
        match peer.try_send_message(msg) {
            TrySend::Enqueued => {
                self.inner.progress.release_protect_zone(guard);
                PeerSend::Sent
            },
            TrySend::Closed(_) => {
                self.inner.progress.release_protect_zone(guard);
                PeerSend::Rejected(SendError::Disconnected)
            },
            TrySend::Full(m) => PeerSend::Suspended(PendingSend { guard, msg: m }),
        }
    }

    /// A cooperative-flavor send to the actor's own mailbox. Unlike the
    /// blocking flavor it may wait: the suspension yields the underlying
    /// worker rather than blocking a thread, so no deadlock results from a
    /// full own-queue, and the send completes through `complete_self_send`
    /// once the actor drains a slot. No liveness exemption is taken: a
    /// self-send never risks misclassifying a different actor.
    pub fn send_self_message(&mut self, msg: A::Message) -> (r: SelfSend<A::Message>)
        ensures
            final(self).name_seq() == old(self).name_seq(),
            final(self).kill_switch_alive() == old(self).kill_switch_alive(),
            final(self).scheduler_queue() == old(self).scheduler_queue(),
            final(self).run_state() == old(self).run_state(),
            final(self).progress_state() == old(self).progress_state(),
            final(self).own_mailbox().same_channel(&old(self).own_mailbox()),
            final(self).own_mailbox().commands_spec() == old(self).own_mailbox().commands_spec(),
            !old(self).own_mailbox().is_open() ==> {
                &&& r == SelfSend::<A::Message>::Rejected(SendError::Disconnected)
                &&& final(self).own_mailbox().messages_spec() == old(
                    self,
                ).own_mailbox().messages_spec()
            },
            old(self).own_mailbox().is_open() && old(self).own_mailbox().has_room() ==> {
                &&& r == SelfSend::<A::Message>::Sent
                &&& final(self).own_mailbox().messages_spec() == old(
                    self,
                ).own_mailbox().messages_spec().push(msg)
            },
            old(self).own_mailbox().is_open() && !old(self).own_mailbox().has_room() ==> {
                &&& r matches SelfSend::Suspended(p) && p.message() == msg
                &&& final(self).own_mailbox().messages_spec() == old(
                    self,
                ).own_mailbox().messages_spec()
            },
    {
        match self.inner.self_mailbox.try_send_message(msg) {
            TrySend::Enqueued => SelfSend::Sent,
            TrySend::Closed(_) => SelfSend::Rejected(SendError::Disconnected),
            TrySend::Full(m) => SelfSend::Suspended(PendingSelfSend { msg: m }),
        }
    }

    /// Resumes a suspended cooperative self-send once the actor has drained
    /// a slot from its own queue.
    pub fn complete_self_send(&mut self, pending: PendingSelfSend<A::Message>) -> (r: SelfSend<
        A::Message,
    >)
        ensures
            final(self).name_seq() == old(self).name_seq(),
            final(self).kill_switch_alive() == old(self).kill_switch_alive(),
            final(self).scheduler_queue() == old(self).scheduler_queue(),
            final(self).run_state() == old(self).run_state(),
            final(self).progress_state() == old(self).progress_state(),
            final(self).own_mailbox().same_channel(&old(self).own_mailbox()),
            final(self).own_mailbox().commands_spec() == old(self).own_mailbox().commands_spec(),
            !old(self).own_mailbox().is_open() ==> {
                &&& r == SelfSend::<A::Message>::Rejected(SendError::Disconnected)
                &&& final(self).own_mailbox().messages_spec() == old(
                    self,
                ).own_mailbox().messages_spec()
            },
            old(self).own_mailbox().is_open() && old(self).own_mailbox().has_room() ==> {
                &&& r == SelfSend::<A::Message>::Sent
                &&& final(self).own_mailbox().messages_spec() == old(
                    self,
                ).own_mailbox().messages_spec().push(pending.message())
            },
            old(self).own_mailbox().is_open() && !old(self).own_mailbox().has_room() ==> {
                &&& r matches SelfSend::Suspended(p) && p.message() == pending.message()
                &&& final(self).own_mailbox().messages_spec() == old(
                    self,
                ).own_mailbox().messages_spec()
            },
    {
        let PendingSelfSend { msg } = pending;
        match self.inner.self_mailbox.try_send_message(msg) {
            TrySend::Enqueued => SelfSend::Sent,
            TrySend::Closed(_) => SelfSend::Rejected(SendError::Disconnected),
            TrySend::Full(m) => SelfSend::Suspended(PendingSelfSend { msg: m }),
        }
    }

    /// Cooperative-flavor deferred self-messaging; same contract as the
    /// blocking flavor's: the request travels the protected peer-send path
    /// to the scheduler, and scheduling is best-effort — a request that
    /// cannot be enqueued is dropped with no error surfaced to the caller.
    pub fn schedule_self_msg(&mut self, after_ms: u64, msg: A::Message)
        requires
            old(self).wf(),
            old(self).guard_count() < u64::MAX,
        ensures
            final(self).wf(),
            final(self).name_seq() == old(self).name_seq(),
            final(self).own_mailbox() == old(self).own_mailbox(),
            final(self).kill_switch_alive() == old(self).kill_switch_alive(),
            final(self).run_state() == old(self).run_state(),
            final(self).progress_state() == after_exit(after_enter(old(self).progress_state())),
            final(self).scheduler_queue().same_channel(&old(self).scheduler_queue()),
            final(self).scheduler_queue().commands_spec() == old(
                self,
            ).scheduler_queue().commands_spec(),
            old(self).scheduler_queue().is_open() && old(self).scheduler_queue().has_room() ==> {
                final(self).scheduler_queue().messages_spec() == old(
                    self,
                ).scheduler_queue().messages_spec().push(
                    SchedulerMessage::ScheduleEvent { delay_ms: after_ms, msg },
                )
            },
            !(old(self).scheduler_queue().is_open() && old(self).scheduler_queue().has_room())
                ==> final(self).scheduler_queue().messages_spec() == old(
                self,
            ).scheduler_queue().messages_spec(),
    {
        let guard = self.inner.progress.protect_zone();
        let req = SchedulerMessage::ScheduleEvent { delay_ms: after_ms, msg };
        match self.inner.scheduler_mailbox.try_send_message(req) {
            TrySend::Enqueued => {},
            TrySend::Full(_) => {},
            TrySend::Closed(_) => {},
        }
        self.inner.progress.release_protect_zone(guard);
    }
}

} // verus!
