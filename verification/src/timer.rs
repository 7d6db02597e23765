//! The tick scheduler: a repeating countdown that gates movement. Time is
//! integer microseconds of elapsed real time.

use vstd::prelude::*;

verus! {

/// A repeating countdown. `duration_us` is the configured cycle length;
/// `remaining_us` is what is left of the cycle in flight.
pub struct TickTimer {
    pub duration_us: u64,
    pub remaining_us: u64,
}

impl TickTimer {
    /// Both the cycle length and the remaining part are positive. The
    /// remaining part may exceed the configured duration after the duration
    /// was shortened mid-cycle: the in-flight cycle keeps its old schedule.
    pub open spec fn wf(self) -> bool {
        &&& 1 <= self.duration_us
        &&& 1 <= self.remaining_us
    }

    /// Whether advancing by `delta_us` completes the in-flight cycle.
    pub open spec fn fires(self, delta_us: u64) -> bool {
        delta_us >= self.remaining_us
    }

    /// What remains of the countdown after it advances by `delta_us`: either
    /// the in-flight cycle shortened, or — when the cycle completes — a fresh
    /// cycle of the configured duration less the carried overshoot.
    pub open spec fn spec_remaining_after(self, delta_us: u64) -> int {
        if self.fires(delta_us) {
            self.duration_us - ((delta_us - self.remaining_us) % (self.duration_us as int))
        } else {
            self.remaining_us - delta_us
        }
    }

    /// A fresh timer, one full cycle from firing.
    pub fn new(duration_us: u64) -> (r: TickTimer)
        requires
            duration_us >= 1,
        ensures
            r.duration_us == duration_us,
            r.remaining_us == duration_us,
            r.wf(),
    {
        TickTimer { duration_us, remaining_us: duration_us }
    }

    /// Advances the countdown by `delta_us` elapsed microseconds and reports
    /// whether it just completed a cycle. On completion the countdown resets
    /// to the configured duration, the overshoot beyond the completed cycle
    /// carrying into the new one.
    pub fn advance(&mut self, delta_us: u64) -> (fired: bool)
        requires
            old(self).wf(),
        ensures
            final(self).wf(),
            fired == old(self).fires(delta_us),
            final(self).duration_us == old(self).duration_us,
            final(self).remaining_us == old(self).spec_remaining_after(delta_us),
    {
        if delta_us < self.remaining_us {
            self.remaining_us = self.remaining_us - delta_us;
            false
        } else {
            let over = (delta_us - self.remaining_us) % self.duration_us;
            self.remaining_us = self.duration_us - over;
            true
        }
    }

    /// Changes the cycle length for subsequent cycles only: the in-flight
    /// countdown is not rescaled.
    pub fn set_duration(&mut self, duration_us: u64)
        requires
            old(self).wf(),
            duration_us >= 1,
        ensures
            final(self).wf(),
            final(self).duration_us == duration_us,
            final(self).remaining_us == old(self).remaining_us,
    {
        self.duration_us = duration_us;
    }
}

} // verus!
