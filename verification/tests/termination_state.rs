use actor_core::{
    Actor, ActorContext, ActorState, ActorTermination, KillSwitch, Mailbox, QueueCapacity,
    SendError, SyncActor,
};

struct Counter;

impl Actor for Counter {
    type Message = u64;
    type ObservableState = u64;

    fn name(&self) -> String {
        "counter".to_string()
    }

    fn observable_state(&self) -> u64 {
        0
    }
}

impl SyncActor for Counter {}

fn sync_ctx(capacity: QueueCapacity) -> ActorContext<Counter> {
    let own = Mailbox::new("counter-1".to_string(), capacity);
    let sched = Mailbox::new("scheduler".to_string(), QueueCapacity::Unbounded);
    ActorContext::new(own, KillSwitch::new(), sched)
}

#[test]
fn is_failure_matches_each_variant() {
    assert!(!ActorTermination::OnDemand.is_failure());
    assert!(ActorTermination::DownstreamClosed.is_failure());
    assert!(ActorTermination::Failure(anyhow::Error::msg("boom")).is_failure());
    assert!(!ActorTermination::Finished.is_failure());
    assert!(!ActorTermination::KillSwitch.is_failure());
}

#[test]
fn is_finished_true_only_for_finished() {
    assert!(ActorTermination::Finished.is_finished());
    assert!(!ActorTermination::OnDemand.is_finished());
    assert!(!ActorTermination::DownstreamClosed.is_finished());
    assert!(!ActorTermination::Failure(anyhow::Error::msg("boom")).is_finished());
    assert!(!ActorTermination::KillSwitch.is_finished());
}

#[test]
fn send_error_converts_to_downstream_closed() {
    let a = ActorTermination::from(SendError::Disconnected);
    assert!(matches!(a, ActorTermination::DownstreamClosed));
    let b = ActorTermination::from(SendError::WouldDeadlock);
    assert!(matches!(b, ActorTermination::DownstreamClosed));
}

#[test]
fn application_error_converts_to_failure() {
    let t = ActorTermination::from(anyhow::Error::msg("boom"));
    assert!(matches!(t, ActorTermination::Failure(_)));
    assert!(t.is_failure());
}

#[test]
fn failing_termination_trips_kill_switch() {
    let mut ctx = sync_ctx(QueueCapacity::Unbounded);
    assert!(ctx.kill_switch().is_alive());
    ctx.terminate(&ActorTermination::DownstreamClosed);
    assert!(!ctx.kill_switch().is_alive());

    let mut ctx2 = sync_ctx(QueueCapacity::Unbounded);
    ctx2.terminate(&ActorTermination::Failure(anyhow::Error::msg("boom")));
    assert!(!ctx2.kill_switch().is_alive());
}

#[test]
fn non_failing_termination_leaves_kill_switch_untripped() {
    let mut on_demand = sync_ctx(QueueCapacity::Unbounded);
    on_demand.terminate(&ActorTermination::OnDemand);
    assert!(on_demand.kill_switch().is_alive());

    let mut finished = sync_ctx(QueueCapacity::Unbounded);
    finished.terminate(&ActorTermination::Finished);
    assert!(finished.kill_switch().is_alive());

    let mut reacting = sync_ctx(QueueCapacity::Unbounded);
    reacting.terminate(&ActorTermination::KillSwitch);
    assert!(reacting.kill_switch().is_alive());
}

#[test]
fn kill_switch_is_monotonic() {
    let mut ks = KillSwitch::new();
    assert!(ks.is_alive());
    ks.kill();
    assert!(!ks.is_alive());
    ks.kill();
    assert!(!ks.is_alive());
}

#[test]
fn pause_and_resume_cycle() {
    let mut ctx = sync_ctx(QueueCapacity::Unbounded);
    assert_eq!(ctx.get_state(), ActorState::Running);
    ctx.pause();
    assert_eq!(ctx.get_state(), ActorState::Paused);
    ctx.resume();
    assert_eq!(ctx.get_state(), ActorState::Running);
}

#[test]
fn terminate_is_terminal() {
    let mut ctx = sync_ctx(QueueCapacity::Unbounded);
    ctx.terminate(&ActorTermination::Finished);
    assert_eq!(ctx.get_state(), ActorState::Terminated);
    ctx.pause();
    assert_eq!(ctx.get_state(), ActorState::Terminated);
    ctx.resume();
    assert_eq!(ctx.get_state(), ActorState::Terminated);
}

#[test]
fn actor_instance_name_comes_from_mailbox() {
    let ctx = sync_ctx(QueueCapacity::Unbounded);
    assert_eq!(ctx.actor_instance_name(), "counter-1");
    assert_eq!(ctx.mailbox().actor_instance_name(), "counter-1");
}

#[test]
fn actor_defaults_to_unbounded_queue() {
    let c = Counter;
    assert_eq!(c.queue_capacity(), QueueCapacity::Unbounded);
    assert_eq!(c.name(), "counter");
    assert_eq!(c.observable_state(), 0);
}

#[test]
fn record_progress_resets_liveness_clock() {
    let mut ctx = sync_ctx(QueueCapacity::Unbounded);
    assert!(ctx.registered_activity_since_last_call());
    assert!(!ctx.registered_activity_since_last_call());
    ctx.record_progress();
    assert!(ctx.registered_activity_since_last_call());
    assert!(!ctx.registered_activity_since_last_call());
}

#[test]
fn protect_zone_spans_polls_and_release_counts_as_progress() {
    let mut ctx = sync_ctx(QueueCapacity::Unbounded);
    assert!(ctx.registered_activity_since_last_call());
    let guard = ctx.protect_zone();
    assert!(ctx.registered_activity_since_last_call());
    assert!(ctx.registered_activity_since_last_call());
    ctx.release_protect_zone(guard);
    assert!(ctx.registered_activity_since_last_call());
    assert!(!ctx.registered_activity_since_last_call());
}

#[test]
fn nested_protect_zones_stay_protected_until_last_release() {
    let mut ctx = sync_ctx(QueueCapacity::Unbounded);
    assert!(ctx.registered_activity_since_last_call());
    let outer = ctx.protect_zone();
    let inner = ctx.protect_zone();
    ctx.release_protect_zone(inner);
    assert!(ctx.registered_activity_since_last_call());
    assert!(ctx.registered_activity_since_last_call());
    ctx.release_protect_zone(outer);
    assert!(ctx.registered_activity_since_last_call());
    assert!(!ctx.registered_activity_since_last_call());
}
