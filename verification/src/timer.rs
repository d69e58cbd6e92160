//! A repeating countdown timer over integer time.
//!
//! Time is counted in tenths of a millisecond so that the slow-motion
//! factor of 0.3 scales a tick exactly: a normal tick advances the timer by
//! `10 * dt`, a slowed one by `3 * dt`, for a frame delta of `dt`
//! milliseconds.

use vstd::prelude::*;

verus! {

use crate::geom::DT_MAX;

/// Upper bound on a timer period, in tenths of a millisecond (10 seconds,
/// the ceiling the spawn-interval clamp allows).
pub const PERIOD_LIMIT: i64 = 100_000;

/// Largest advance of one tick, in tenths of a millisecond.
pub const TICK_ADVANCE_LIMIT: i64 = 600_000;

/// A repeating timer: elapsed progress and configured period, both in
/// tenths of a millisecond.  When the elapsed progress reaches the period
/// the timer fires and wraps, keeping the overshoot.
#[derive(Debug, Clone, Copy, PartialEq, Eq, Structural)]
pub struct TickTimer {
    pub elapsed: i64,
    pub period: i64,
}

impl TickTimer {
    /// Elapsed progress is within bounds and the period is positive.
    pub open spec fn wf(self) -> bool {
        &&& 0 <= self.elapsed <= PERIOD_LIMIT
        &&& 0 < self.period <= PERIOD_LIMIT
    }

    /// A fresh timer with the given period and no progress.
    pub fn new(period: i64) -> (r: TickTimer)
        requires
            0 < period <= PERIOD_LIMIT,
        ensures
            r == (TickTimer { elapsed: 0, period }),
            r.wf(),
    {
        TickTimer { elapsed: 0, period }
    }

    /// Discards the elapsed progress.
    pub fn reset(&mut self)
        ensures
            *final(self) == (TickTimer { elapsed: 0, ..*old(self) }),
    {
        self.elapsed = 0;
    }

    /// Installs a new period while keeping the elapsed progress: a period
    /// change must never restart the timer, or a period re-derived every
    /// tick would keep it from ever firing.
    pub fn set_period(&mut self, period: i64)
        requires
            0 < period <= PERIOD_LIMIT,
        ensures
            *final(self) == (TickTimer { period, ..*old(self) }),
    {
        self.period = period;
    }

    /// Advances the timer by `advance` tenths of a millisecond.  Returns
    /// whether the timer completed its period during this tick; if so the
    /// elapsed progress wraps modulo the period.
    pub fn tick(&mut self, advance: i64) -> (fired: bool)
        requires
            old(self).wf(),
            0 <= advance <= TICK_ADVANCE_LIMIT,
        ensures
            fired == (old(self).elapsed + advance >= old(self).period),
            fired ==> final(self).elapsed == (old(self).elapsed + advance) % (
            old(self).period as int),
            !fired ==> final(self).elapsed == old(self).elapsed + advance,
            final(self).period == old(self).period,
            final(self).elapsed < final(self).period || !fired,
            final(self).wf(),
    {
        let total = self.elapsed + advance;
        if total >= self.period {
            self.elapsed = total % self.period;
            true
        } else {
            self.elapsed = total;
            false
        }
    }
}

} // verus!
