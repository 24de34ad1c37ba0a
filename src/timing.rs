//! The fixed-rate timer schedule, decoupled from instruction throughput.
use vstd::prelude::*;

verus! {

/// Timer decrements per second.
pub const TIMER_HZ: u64 = 60;

/// Converts elapsed time, in units of which `units_per_second` make a second
/// (instructions at a fixed rate, or microseconds of wall clock), into 60 Hz
/// timer ticks. The fraction of a tick not yet due is carried over, counted
/// in sixtieths of a unit.
pub struct TimerClock {
    pub units_per_second: u64,
    pub carry: u64,
}

impl TimerClock {
    /// The rate is positive and the carried fraction is less than one tick.
    pub open spec fn well_formed(&self) -> bool {
        self.units_per_second > 0 && self.carry < self.units_per_second
    }

    /// A clock for the given rate; `None` for a rate of zero.
    pub fn new(units_per_second: u64) -> (r: Option<TimerClock>)
        ensures
            r is None <==> units_per_second == 0,
            r matches Some(c) ==> c.units_per_second == units_per_second && c.carry == 0
                && c.well_formed(),
    {
        if units_per_second == 0 {
            None
        } else {
            Some(TimerClock { units_per_second, carry: 0 })
        }
    }

    /// Accounts for `units` more elapsed units and returns the ticks that
    /// fell due.
    pub fn advance(&mut self, units: u32) -> (ticks: u64)
        requires
            old(self).well_formed(),
        ensures
            final(self).well_formed(),
            final(self).units_per_second == old(self).units_per_second,
            ticks == (old(self).carry + TIMER_HZ * units) / (old(self).units_per_second as int),
            final(self).carry == (old(self).carry + TIMER_HZ * units) % (
            old(self).units_per_second as int),
    {
        let rate = self.units_per_second as u128;
        let scaled: u128 = units as u128 * 60;
        let total: u128 = self.carry as u128 + scaled;
        let ticks: u128 = total / rate;
        proof {
            let (c, u, r) = (self.carry as int, units as int, rate as int);
            assert(ticks <= total) by (nonlinear_arith)
                requires
                    ticks == total / rate,
                    rate >= 1,
            ;
            assert(ticks * r <= total) by (nonlinear_arith)
                requires
                    ticks == total / rate,
                    r == rate,
                    rate >= 1,
            ;
            assert(ticks < 0x1_0000_0000_0000_0000) by (nonlinear_arith)
                requires
                    ticks * r <= total,
                    total == c + 60 * u,
                    c < r,
                    u < 0x1_0000_0000,
                    r >= 1,
            ;
        }
        self.carry = (total % rate) as u64;
        ticks as u64
    }
}

} // verus!
