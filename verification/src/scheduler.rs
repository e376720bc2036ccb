//! The fixed-period tick driver.
//!
//! The caller runs the loop: it measures how long a tick took, tells the
//! scheduler, and sleeps for as long as it is told. A tick that ran over the
//! period is followed at once by the next one, and nothing is made up for
//! later.

use vstd::prelude::*;

verus! {

/// How long to sleep after a tick that took `elapsed` out of `period`.
pub open spec fn sleep_time(period: int, elapsed: int) -> int {
    if elapsed < period {
        period - elapsed
    } else {
        0
    }
}

/// The tick driver. Times are nanoseconds.
#[derive(Clone, Copy, Debug)]
pub struct Scheduler {
    /// The time from the start of one tick to the start of the next.
    pub period: u64,
    /// How many ticks are complete: the index of the tick to run next.
    pub tick_counter: u64,
}

impl Scheduler {
    /// A scheduler that has run no tick yet.
    pub fn new(period: u64) -> (scheduler: Scheduler)
        ensures
            scheduler == (Scheduler { period, tick_counter: 0 }),
    {
        Scheduler { period, tick_counter: 0 }
    }

    /// How long to sleep after a tick that took `elapsed`.
    pub fn sleep_for(&self, elapsed: u64) -> (sleep: u64)
        ensures
            sleep == sleep_time(self.period as int, elapsed as int),
    {
        if elapsed < self.period {
            self.period - elapsed
        } else {
            0
        }
    }

    /// Counts the tick that just ran, and returns how long to sleep before the
    /// next one. The tick is counted whether or not it ran over.
    pub fn complete_tick(&mut self, elapsed: u64) -> (sleep: u64)
        requires
            old(self).tick_counter < u64::MAX,
        ensures
            final(self).period == old(self).period,
            final(self).tick_counter == old(self).tick_counter + 1,
            sleep == sleep_time(old(self).period as int, elapsed as int),
    {
        self.tick_counter = self.tick_counter + 1;
        self.sleep_for(elapsed)
    }
}

/// A tick and its sleep together take the period where the tick was in time,
/// and the tick's own time where it was late: the sleep is never negative and
/// never longer than the period.
pub proof fn lemma_sleep_fills_period(period: int, elapsed: int)
    requires
        0 <= elapsed,
        0 <= period,
    ensures
        0 <= sleep_time(period, elapsed) <= period,
        elapsed <= period ==> elapsed + sleep_time(period, elapsed) == period,
        elapsed >= period ==> sleep_time(period, elapsed) == 0,
{
}

} // verus!
