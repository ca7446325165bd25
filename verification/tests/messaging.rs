use actor_core::{
    Actor, ActorContext, AsyncActor, Command, KillSwitch, Mailbox, PeerSend, QueueCapacity,
    Scheduler, SelfSend, SendError, SyncActor, TrySend,
};

struct Emitter;

impl Actor for Emitter {
    type Message = u64;
    type ObservableState = u64;

    fn name(&self) -> String {
        "emitter".to_string()
    }

    fn observable_state(&self) -> u64 {
        0
    }
}

impl SyncActor for Emitter {}

struct Pinger;

impl Actor for Pinger {
    type Message = u64;
    type ObservableState = u64;

    fn name(&self) -> String {
        "pinger".to_string()
    }

    fn observable_state(&self) -> u64 {
        0
    }
}

impl AsyncActor for Pinger {}

fn sync_ctx(capacity: QueueCapacity) -> ActorContext<Emitter> {
    let own = Mailbox::new("emitter-1".to_string(), capacity);
    let sched = Mailbox::new("scheduler".to_string(), QueueCapacity::Unbounded);
    ActorContext::new(own, KillSwitch::new(), sched)
}

fn async_ctx(capacity: QueueCapacity) -> ActorContext<Pinger> {
    let own = Mailbox::new("pinger-1".to_string(), capacity);
    let sched = Mailbox::new("scheduler".to_string(), QueueCapacity::Unbounded);
    ActorContext::new(own, KillSwitch::new(), sched)
}

#[test]
fn bounded_mailbox_applies_backpressure() {
    let mut m: Mailbox<u64> = Mailbox::new("b".to_string(), QueueCapacity::Bounded(2));
    assert!(matches!(m.try_send_message(1), TrySend::Enqueued));
    assert!(matches!(m.try_send_message(2), TrySend::Enqueued));
    assert!(matches!(m.try_send_message(3), TrySend::Full(3)));
    assert_eq!(m.pop_next(), Some(1));
    assert!(matches!(m.try_send_message(3), TrySend::Enqueued));
}

#[test]
fn unbounded_mailbox_never_full() {
    let mut m: Mailbox<u64> = Mailbox::new("u".to_string(), QueueCapacity::Unbounded);
    for i in 0..100 {
        assert!(matches!(m.try_send_message(i), TrySend::Enqueued));
    }
    assert_eq!(m.pop_next(), Some(0));
}

#[test]
fn closed_mailbox_rejects_everything() {
    let mut m: Mailbox<u64> = Mailbox::new("c".to_string(), QueueCapacity::Unbounded);
    m.close();
    assert!(matches!(m.try_send_message(1), TrySend::Closed(1)));
    assert!(matches!(
        m.send_command(Command::HighPriorityMessage(2)),
        Err(SendError::Disconnected)
    ));
}

#[test]
fn empty_mailbox_pops_nothing() {
    let mut m: Mailbox<u64> = Mailbox::new("e".to_string(), QueueCapacity::Unbounded);
    assert_eq!(m.pop_next(), None);
}

#[test]
fn high_priority_command_overtakes_backlog() {
    let mut m: Mailbox<u64> = Mailbox::new("h".to_string(), QueueCapacity::Unbounded);
    assert!(matches!(m.try_send_message(10), TrySend::Enqueued));
    assert!(matches!(m.try_send_message(11), TrySend::Enqueued));
    assert!(m.send_command(Command::HighPriorityMessage(99)).is_ok());
    assert_eq!(m.pop_next(), Some(99));
    assert_eq!(m.pop_next(), Some(10));
    assert_eq!(m.pop_next(), Some(11));
    assert_eq!(m.pop_next(), None);
}

#[test]
fn zero_capacity_mailbox_never_accepts_ordinary_messages() {
    let mut m: Mailbox<u64> = Mailbox::new("z".to_string(), QueueCapacity::Bounded(0));
    assert!(matches!(m.try_send_message(1), TrySend::Full(1)));
    // The command lane is exempt from the capacity policy.
    assert!(m.send_command(Command::HighPriorityMessage(2)).is_ok());
    assert_eq!(m.pop_next(), Some(2));

    let mut ctx = sync_ctx(QueueCapacity::Bounded(0));
    assert!(matches!(
        ctx.send_self_message_blocking(1),
        Err(SendError::WouldDeadlock)
    ));
}

#[test]
fn blocking_self_send_full_queue_would_deadlock() {
    let mut ctx = sync_ctx(QueueCapacity::Bounded(1));
    assert!(ctx.send_self_message_blocking(1).is_ok());
    let r = ctx.send_self_message_blocking(2);
    assert!(matches!(r, Err(SendError::WouldDeadlock)));
    assert_eq!(ctx.take_next_message(), Some(1));
    assert_eq!(ctx.take_next_message(), None);
}

#[test]
fn cooperative_self_send_suspends_then_completes() {
    let mut ctx = async_ctx(QueueCapacity::Bounded(1));
    assert!(matches!(ctx.send_self_message(1), SelfSend::Sent));
    let pending = match ctx.send_self_message(2) {
        SelfSend::Suspended(p) => p,
        _ => panic!("a full own-queue must suspend a cooperative self-send"),
    };
    assert_eq!(ctx.take_next_message(), Some(1));
    assert!(matches!(ctx.complete_self_send(pending), SelfSend::Sent));
    assert_eq!(ctx.take_next_message(), Some(2));
    assert_eq!(ctx.take_next_message(), None);
}

#[test]
fn peer_send_rejected_when_peer_closed() {
    let mut ctx = sync_ctx(QueueCapacity::Unbounded);
    let mut peer: Mailbox<u64> = Mailbox::new("gone".to_string(), QueueCapacity::Unbounded);
    peer.close();
    let r = ctx.send_message_blocking(&mut peer, 1);
    assert!(matches!(r, PeerSend::Rejected(SendError::Disconnected)));
    assert!(ctx.registered_activity_since_last_call());
    assert!(!ctx.registered_activity_since_last_call());
}

#[test]
fn blocking_backpressure_scenario_sender_stays_protected() {
    let mut a = sync_ctx(QueueCapacity::Unbounded);
    let mut b: Mailbox<u64> = Mailbox::new("b".to_string(), QueueCapacity::Bounded(2));

    assert!(matches!(a.send_message_blocking(&mut b, 1), PeerSend::Sent));
    assert!(matches!(a.send_message_blocking(&mut b, 2), PeerSend::Sent));

    // Flush the liveness flag so later polls see only the blocked send.
    assert!(a.registered_activity_since_last_call());

    let pending = match a.send_message_blocking(&mut b, 3) {
        PeerSend::Suspended(p) => p,
        _ => panic!("a saturated peer must suspend the send"),
    };

    // An external observer polling the sender during the whole blocked
    // window never classifies it as stalled.
    assert!(a.registered_activity_since_last_call());
    assert!(a.registered_activity_since_last_call());
    assert!(a.registered_activity_since_last_call());

    // The receiver's handler resumes and drains one slot; the blocked send
    // then completes.
    assert_eq!(b.pop_next(), Some(1));
    assert!(matches!(a.complete_send_blocking(&mut b, pending), PeerSend::Sent));

    // The exemption is released; completing the send counted as progress.
    assert!(a.registered_activity_since_last_call());
    assert!(!a.registered_activity_since_last_call());

    // Delivery kept the send order.
    assert_eq!(b.pop_next(), Some(2));
    assert_eq!(b.pop_next(), Some(3));
    assert_eq!(b.pop_next(), None);
}

#[test]
fn blocked_send_still_suspended_while_peer_full() {
    let mut a = sync_ctx(QueueCapacity::Unbounded);
    let mut b: Mailbox<u64> = Mailbox::new("b".to_string(), QueueCapacity::Bounded(1));
    assert!(matches!(a.send_message_blocking(&mut b, 1), PeerSend::Sent));
    let pending = match a.send_message_blocking(&mut b, 2) {
        PeerSend::Suspended(p) => p,
        _ => panic!("a saturated peer must suspend the send"),
    };
    // No slot freed yet: the retry stays suspended and protected.
    let pending = match a.complete_send_blocking(&mut b, pending) {
        PeerSend::Suspended(p) => p,
        _ => panic!("a still-full peer must keep the send suspended"),
    };
    assert!(a.registered_activity_since_last_call());
    assert_eq!(b.pop_next(), Some(1));
    assert!(matches!(a.complete_send_blocking(&mut b, pending), PeerSend::Sent));
    assert_eq!(b.pop_next(), Some(2));
}

#[test]
fn cooperative_peer_send_suspends_under_exemption() {
    let mut a = async_ctx(QueueCapacity::Unbounded);
    let mut b: Mailbox<u64> = Mailbox::new("b".to_string(), QueueCapacity::Bounded(1));
    assert!(matches!(a.send_message(&mut b, 1), PeerSend::Sent));
    assert!(a.registered_activity_since_last_call());
    let pending = match a.send_message(&mut b, 2) {
        PeerSend::Suspended(p) => p,
        _ => panic!("a saturated peer must suspend the send"),
    };
    assert!(a.registered_activity_since_last_call());
    assert!(a.registered_activity_since_last_call());
    assert_eq!(b.pop_next(), Some(1));
    assert!(matches!(a.complete_send(&mut b, pending), PeerSend::Sent));
    assert_eq!(b.pop_next(), Some(2));
    assert_eq!(b.pop_next(), None);
}

#[test]
fn scheduled_message_fires_after_delay_and_overtakes_backlog() {
    let mut ctx = sync_ctx(QueueCapacity::Unbounded);

    // An ordinary backlog is already waiting.
    assert!(ctx.send_self_message_blocking(10).is_ok());
    assert!(ctx.send_self_message_blocking(11).is_ok());

    // Schedule a wake-up 100 ms out and hand the request to the scheduler.
    ctx.schedule_self_msg_blocking(100, 99);
    let req = ctx
        .take_scheduler_request()
        .expect("the schedule request must reach the scheduler's queue");
    let mut sched: Scheduler<u64> = Scheduler::new(0);
    sched.accept(req);

    // Nothing fires before the delay has elapsed.
    assert!(!ctx.deliver_scheduled(&mut sched));
    sched.advance_to(99);
    assert!(!ctx.deliver_scheduled(&mut sched));

    // At exactly the due instant the message fires, and it is delivered
    // ahead of the backlog that was enqueued long before it.
    sched.advance_to(100);
    assert!(ctx.deliver_scheduled(&mut sched));
    assert_eq!(ctx.take_next_message(), Some(99));
    assert_eq!(ctx.take_next_message(), Some(10));
    assert_eq!(ctx.take_next_message(), Some(11));
    assert_eq!(ctx.take_next_message(), None);

    // The event fired once: nothing is left to deliver.
    assert!(!ctx.deliver_scheduled(&mut sched));
}

#[test]
fn scheduling_is_best_effort_when_scheduler_gone() {
    let own = Mailbox::new("emitter-2".to_string(), QueueCapacity::Unbounded);
    let mut sched_mailbox: Mailbox<actor_core::SchedulerMessage<u64>> =
        Mailbox::new("scheduler".to_string(), QueueCapacity::Unbounded);
    sched_mailbox.close();
    let mut ctx: ActorContext<Emitter> = ActorContext::new(own, KillSwitch::new(), sched_mailbox);
    // No error surfaces; the request is silently dropped.
    ctx.schedule_self_msg_blocking(50, 7);
    assert!(ctx.take_scheduler_request().is_none());
}

#[test]
fn cooperative_schedule_request_reaches_scheduler() {
    let mut ctx = async_ctx(QueueCapacity::Unbounded);
    ctx.schedule_self_msg(25, 5);
    let req = ctx
        .take_scheduler_request()
        .expect("the schedule request must reach the scheduler's queue");
    let mut sched: Scheduler<u64> = Scheduler::new(1000);
    sched.accept(req);
    sched.advance_to(1024);
    assert!(!ctx.deliver_scheduled(&mut sched));
    sched.advance_to(1025);
    assert!(ctx.deliver_scheduled(&mut sched));
    assert_eq!(ctx.take_next_message(), Some(5));
}
