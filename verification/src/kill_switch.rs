//! The shared fail-fast flag: the one piece of state common to every actor of
//! a system.

use vstd::prelude::*;

verus! {

/// A monotonic fail-fast flag. It starts alive (untripped); `kill` trips it,
/// and nothing ever untrips it again.
pub struct KillSwitch {
    alive: bool,
}

impl KillSwitch {
    /// Whether the switch is still untripped.
    pub closed spec fn is_alive_spec(&self) -> bool {
        self.alive
    }

    pub fn new() -> (r: KillSwitch)
        ensures
            r.is_alive_spec(),
    {
        KillSwitch { alive: true }
    }

    pub fn is_alive(&self) -> (r: bool)
        ensures
            r == self.is_alive_spec(),
    {
        self.alive
    }

    /// Trips the switch. The transition is one-way: after this call the
    /// switch reads as dead forever.
    pub fn kill(&mut self)
        ensures
            !final(self).is_alive_spec(),
    {
        self.alive = false;
    }
}

} // verus!
