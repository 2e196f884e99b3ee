//! The fixed-rate tick clock: it turns free-running elapsed time into a
//! count of due ticks, so per-frame work and per-tick work stay decoupled.

use vstd::prelude::*;
use vstd::arithmetic::div_mod::lemma_fundamental_div_mod_converse;

verus! {

/// The default tick period, in milliseconds.
pub const DEFAULT_TICK_PERIOD_MS: u64 = 1300;

/// Accumulates elapsed wall time and releases one tick per full period.
pub struct SimulationClock {
    pub period_ms: u64,
    pub accumulated_ms: u64,
}

impl SimulationClock {
    /// The period is positive and the accumulator always holds less than
    /// one full period.
    pub open spec fn wf(self) -> bool {
        &&& self.period_ms > 0
        &&& self.accumulated_ms < self.period_ms
    }

    /// A clock that has just started a period.
    pub fn new(period_ms: u64) -> (r: SimulationClock)
        requires
            period_ms > 0,
        ensures
            r.wf(),
            r.period_ms == period_ms,
            r.accumulated_ms == 0,
    {
        SimulationClock { period_ms, accumulated_ms: 0 }
    }

    /// Feeds `elapsed_ms` of wall time into the clock and returns how many
    /// fixed-rate ticks fall due: one per full period now accumulated, with
    /// the remainder kept for the next frame.
    pub fn advance_time(&mut self, elapsed_ms: u64) -> (ticks: u64)
        requires
            old(self).wf(),
            old(self).accumulated_ms + elapsed_ms <= u64::MAX,
        ensures
            final(self).wf(),
            final(self).period_ms == old(self).period_ms,
            ticks * old(self).period_ms + final(self).accumulated_ms == old(self).accumulated_ms
                + elapsed_ms,
            ticks == (old(self).accumulated_ms + elapsed_ms) as int / old(self).period_ms as int,
            final(self).accumulated_ms == (old(self).accumulated_ms + elapsed_ms) as int % old(
                self,
            ).period_ms as int,
    {
        let period = self.period_ms;
        let ghost total_in = self.accumulated_ms + elapsed_ms;
        let mut total: u64 = self.accumulated_ms + elapsed_ms;
        let mut ticks: u64 = 0;
        while total >= period
            invariant
                period == old(self).period_ms,
                period > 0,
                ticks * period + total == total_in,
                total_in <= u64::MAX,
            decreases total,
        {
            proof {
                assert(ticks <= ticks * period) by (nonlinear_arith)
                    requires
                        period >= 1,
                        ticks >= 0,
                ;
                assert((ticks + 1) * period == ticks * period + period) by (nonlinear_arith);
            }
            total = total - period;
            ticks = ticks + 1;
        }
        self.accumulated_ms = total;
        proof {
            lemma_fundamental_div_mod_converse(
                total_in as int,
                period as int,
                ticks as int,
                total as int,
            );
        }
        ticks
    }
}

} // verus!
