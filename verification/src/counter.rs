use vstd::prelude::*;

verus! {

/// The shared message counter together with the reporter's snapshot of it.
///
/// `count` is bumped once per delivered message by the receiving path;
/// `last_seen` belongs to the reporting path alone and holds the value of
/// `count` as of the previous reporting tick.
pub struct RateCounter {
    pub count: u64,
    pub last_seen: u64,
}

impl RateCounter {
    /// The reporter's snapshot never runs ahead of the counter, so a tick's
    /// delta is always a plain (non-negative) difference.
    pub open spec fn well_formed(self) -> bool {
        self.last_seen <= self.count
    }

    /// A fresh counter: nothing arrived yet, nothing reported yet.
    pub fn new() -> (c: RateCounter)
        ensures
            c.count == 0,
            c.last_seen == 0,
            c.well_formed(),
    {
        RateCounter { count: 0, last_seen: 0 }
    }

    /// Called once per delivered message: bumps the counter and touches
    /// nothing else.
    pub fn record_arrival(&mut self)
        requires
            old(self).count < u64::MAX,
        ensures
            final(self).count == old(self).count + 1,
            final(self).last_seen == old(self).last_seen,
            old(self).well_formed() ==> final(self).well_formed(),
    {
        self.count = self.count + 1;
    }

    /// One reporting tick: returns how many messages arrived since the
    /// previous tick and moves the snapshot up to the current count.
    pub fn report_tick(&mut self) -> (delta: u64)
        requires
            old(self).well_formed(),
        ensures
            delta == old(self).count - old(self).last_seen,
            final(self).count == old(self).count,
            final(self).last_seen == old(self).count,
            final(self).well_formed(),
    {
        let current = self.count;
        let delta = current - self.last_seen;
        self.last_seen = current;
        delta
    }

    /// The current count, read without changing anything.
    pub fn current(&self) -> (n: u64)
        ensures
            n == self.count,
    {
        self.count
    }
}

} // verus!
