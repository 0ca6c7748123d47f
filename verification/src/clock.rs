//! The tick clock: a fixed-interval repeating countdown that gates how often
//! movement is evaluated, decoupling simulation rate from frame rate.

use vstd::prelude::*;

verus! {

/// Milliseconds in one tick period of the standard game.
pub const TICK_PERIOD_MS: u64 = 200;

/// A repeating countdown. Each frame it is advanced by the elapsed time; it
/// fires exactly when the countdown completes, then refills for the next
/// period.
pub struct TickClock {
    pub period_ms: u64,
    pub remaining_ms: u64,
}

impl TickClock {
    /// The countdown never exceeds its period and never sits at zero: a
    /// completed period refills immediately.
    pub open spec fn wf(self) -> bool {
        0 < self.remaining_ms <= self.period_ms
    }

    /// Whether advancing by `delta_ms` completes the countdown.
    pub open spec fn fires(self, delta_ms: u64) -> bool {
        delta_ms >= self.remaining_ms
    }

    /// A clock with a full countdown ahead of it.
    pub fn new(period_ms: u64) -> (r: TickClock)
        requires
            period_ms > 0,
        ensures
            r.wf(),
            r.period_ms == period_ms,
            r.remaining_ms == period_ms,
    {
        TickClock { period_ms, remaining_ms: period_ms }
    }

    /// Advance by the elapsed time and report whether the countdown
    /// completed; a completed countdown is reset to a full period.
    pub fn tick(&mut self, delta_ms: u64) -> (fired: bool)
        requires
            old(self).wf(),
        ensures
            final(self).wf(),
            fired == old(self).fires(delta_ms),
            final(self).period_ms == old(self).period_ms,
            fired ==> final(self).remaining_ms == old(self).period_ms,
            !fired ==> final(self).remaining_ms == old(self).remaining_ms - delta_ms,
    {
        if delta_ms >= self.remaining_ms {
            self.remaining_ms = self.period_ms;
            true
        } else {
            self.remaining_ms = self.remaining_ms - delta_ms;
            false
        }
    }
}

} // verus!
