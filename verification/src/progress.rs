//! The per-actor liveness tracker. The owning actor records activity and
//! acquires protect zones; an external monitor polls it concurrently and
//! classifies the actor as stalled only when it sees no activity at all.

use vstd::prelude::*;

verus! {

/// What the liveness tracker reads as between two polls of the monitor.
#[derive(Clone, Copy, Debug, PartialEq, Eq, Structural)]
pub enum ProgressState {
    /// No activity since the monitor last polled.
    NoUpdate,
    /// Some activity since the monitor last polled.
    Updated,
    /// The actor holds this many liveness exemptions; while at least one is
    /// held, the monitor must not classify the actor as stalled.
    ProtectedZone(u64),
}

/// A protected-zone count of zero would be meaningless: the state drops back
/// to `Updated` when the last exemption is released.
pub open spec fn state_wf(s: ProgressState) -> bool {
    s matches ProgressState::ProtectedZone(n) ==> n >= 1
}

/// The tracker after the owning actor records activity.
pub open spec fn after_record(s: ProgressState) -> ProgressState {
    match s {
        ProgressState::NoUpdate => ProgressState::Updated,
        ProgressState::Updated => ProgressState::Updated,
        ProgressState::ProtectedZone(n) => ProgressState::ProtectedZone(n),
    }
}

/// The tracker after one more liveness exemption is acquired.
pub open spec fn after_enter(s: ProgressState) -> ProgressState {
    match s {
        ProgressState::ProtectedZone(n) => ProgressState::ProtectedZone((n + 1) as u64),
        _ => ProgressState::ProtectedZone(1),
    }
}

/// The tracker after one liveness exemption is released. Releasing the last
/// exemption counts as activity: the protected operation completed.
pub open spec fn after_exit(s: ProgressState) -> ProgressState {
    match s {
        ProgressState::ProtectedZone(n) => if n <= 1 {
            ProgressState::Updated
        } else {
            ProgressState::ProtectedZone((n - 1) as u64)
        },
        _ => s,
    }
}

/// What the monitor's poll reports: activity was seen unless the tracker
/// reads `NoUpdate`.
pub open spec fn activity_seen(s: ProgressState) -> bool {
    !(s is NoUpdate)
}

/// The tracker after one poll of the monitor: a plain activity flag is
/// consumed by the poll, an exemption is left in place.
pub open spec fn after_activity_check(s: ProgressState) -> ProgressState {
    match s {
        ProgressState::Updated => ProgressState::NoUpdate,
        _ => s,
    }
}

/// How many exemptions are currently held.
pub open spec fn guard_count_of(s: ProgressState) -> u64 {
    match s {
        ProgressState::ProtectedZone(n) => n,
        _ => 0,
    }
}

/// A scoped liveness exemption. One is handed out by every protect-zone
/// acquisition and must be given back to release the exemption; it cannot be
/// forged or duplicated.
pub struct ProtectZoneGuard {
    _private: (),
}

/// The liveness tracker owned by one actor context.
pub struct Progress {
    state: ProgressState,
}

impl Progress {
    pub closed spec fn state_spec(&self) -> ProgressState {
        self.state
    }

    /// Whether the actor currently holds at least one liveness exemption.
    pub open spec fn is_protected(&self) -> bool {
        self.state_spec() is ProtectedZone
    }

    pub open spec fn wf(&self) -> bool {
        state_wf(self.state_spec())
    }

    /// A fresh tracker counts as active, so a just-spawned actor is not
    /// classified as stalled before it processes its first message.
    pub fn new() -> (r: Progress)
        ensures
            r.state_spec() == ProgressState::Updated,
            r.wf(),
    {
        Progress { state: ProgressState::Updated }
    }

    /// Resets the liveness clock without acquiring an exemption.
    pub fn record_progress(&mut self)
        ensures
            final(self).state_spec() == after_record(old(self).state_spec()),
            old(self).wf() ==> final(self).wf(),
    {
        match self.state {
            ProgressState::NoUpdate => {
                self.state = ProgressState::Updated;
            },
            _ => {},
        }
    }

    /// Acquires one liveness exemption and hands back the guard for it.
    pub fn protect_zone(&mut self) -> (g: ProtectZoneGuard)
        requires
            guard_count_of(old(self).state_spec()) < u64::MAX,
        ensures
            final(self).state_spec() == after_enter(old(self).state_spec()),
            final(self).is_protected(),
            final(self).wf(),
    {
        match self.state {
            ProgressState::ProtectedZone(n) => {
                self.state = ProgressState::ProtectedZone(n + 1);
            },
            _ => {
                self.state = ProgressState::ProtectedZone(1);
            },
        }
        ProtectZoneGuard { _private: () }
    }

    /// Gives one exemption back. Releasing the last one leaves the tracker
    /// reading `Updated`: completing a protected operation is progress.
    pub fn release_protect_zone(&mut self, _guard: ProtectZoneGuard)
        requires
            old(self).is_protected(),
            old(self).wf(),
        ensures
            final(self).state_spec() == after_exit(old(self).state_spec()),
            final(self).wf(),
    {
        match self.state {
            ProgressState::ProtectedZone(n) => {
                if n <= 1 {
                    self.state = ProgressState::Updated;
                } else {
                    self.state = ProgressState::ProtectedZone(n - 1);
                }
            },
            _ => {},
        }
    }

    /// The monitor's side: reports whether any activity was seen since the
    /// last poll and consumes the plain activity flag. An actor holding an
    /// exemption always reports activity and keeps the exemption.
    pub fn registered_activity_since_last_call(&mut self) -> (r: bool)
        ensures
            r == activity_seen(old(self).state_spec()),
            final(self).state_spec() == after_activity_check(old(self).state_spec()),
            old(self).wf() ==> final(self).wf(),
    {
        match self.state {
            ProgressState::NoUpdate => false,
            ProgressState::Updated => {
                self.state = ProgressState::NoUpdate;
                true
            },
            ProgressState::ProtectedZone(_) => true,
        }
    }
}

/// While an actor holds a liveness exemption, the monitor's poll always
/// reports activity and leaves the exemption in place: however often the
/// monitor polls during a protected wait, the actor is never classified as
/// stalled.
pub proof fn lemma_protected_never_stalled(s: ProgressState)
    requires
        s is ProtectedZone,
    ensures
        activity_seen(s),
        after_activity_check(s) is ProtectedZone,
        after_activity_check(s) == s,
{
}

} // verus!
