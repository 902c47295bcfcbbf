//! Rate limiting for the periodic sync channels.
//!
//! Each channel owns one timer; a tick accumulates elapsed time and fires
//! exactly when the accumulated time reaches the channel's interval.

use vstd::prelude::*;

verus! {

/// Accumulating timer for one rate-limited stream.
#[derive(Clone, Copy, Debug, PartialEq, Eq, Structural)]
pub struct RateTimer {
    pub interval_ms: u32,
    pub accum_ms: u32,
}

impl RateTimer {
    pub open spec fn wf(self) -> bool {
        &&& self.interval_ms >= 1
        &&& self.accum_ms < self.interval_ms
    }

    /// Whether a tick of `dt_ms` reaches the interval.
    pub open spec fn fires_spec(self, dt_ms: u32) -> bool {
        self.accum_ms + dt_ms >= self.interval_ms
    }

    /// Timer for the given interval, starting empty.
    pub fn new(interval_ms: u32) -> (r: RateTimer)
        requires
            interval_ms >= 1,
        ensures
            r.wf(),
            r.interval_ms == interval_ms,
            r.accum_ms == 0,
    {
        RateTimer { interval_ms, accum_ms: 0 }
    }

    /// Advance by `dt_ms`. Returns true exactly when the interval is
    /// reached, and then starts a fresh period.
    pub fn tick(&mut self, dt_ms: u32) -> (fired: bool)
        requires
            old(self).wf(),
        ensures
            final(self).wf(),
            final(self).interval_ms == old(self).interval_ms,
            fired == old(self).fires_spec(dt_ms),
            fired ==> final(self).accum_ms == 0,
            !fired ==> final(self).accum_ms == old(self).accum_ms + dt_ms,
    {
        if dt_ms >= self.interval_ms - self.accum_ms {
            self.accum_ms = 0;
            true
        } else {
            self.accum_ms = self.accum_ms + dt_ms;
            false
        }
    }
}

} // verus!
