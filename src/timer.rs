//! Countdown and repeating timers over microseconds.

use vstd::prelude::*;

verus! {

/// The longest single tick, in microseconds, that timers and motion accept.
pub const MAX_TICK: u64 = 1_000_000;

/// A timer that fires every `period` microseconds.
#[derive(Clone, Copy, Debug, PartialEq, Eq, Structural)]
pub struct RepeatingTimer {
    pub period: u64,
    pub elapsed: u64,
}

impl RepeatingTimer {
    /// A positive period, and less than one period since it last fired.
    pub open spec fn wf(&self) -> bool {
        0 < self.period && self.elapsed < self.period
    }

    /// A timer that first fires one period from now.
    pub fn new(period: u64) -> (r: Self)
        requires
            0 < period,
        ensures
            r.wf(),
            r.period == period,
            r.elapsed == 0,
    {
        RepeatingTimer { period, elapsed: 0 }
    }

    /// Advances by `dt` and tells whether the timer fired during it.
    pub fn tick(&mut self, dt: u64) -> (fired: bool)
        requires
            old(self).wf(),
            dt <= MAX_TICK,
        ensures
            final(self).wf(),
            final(self).period == old(self).period,
            fired == (old(self).elapsed + dt >= old(self).period),
            final(self).elapsed == (old(self).elapsed + dt) % (old(self).period as int),
    {
        let total = self.elapsed as u128 + dt as u128;
        let fired = total >= self.period as u128;
        self.elapsed = (total % self.period as u128) as u64;
        fired
    }
}

} // verus!
