use vstd::prelude::*;

verus! {

/// Running totals of translation latencies, for the average reported after a
/// model's benchmark sentences.
pub struct LatencyTotals {
    pub total_ms: u64,
    pub count: u64,
}

impl LatencyTotals {
    pub fn new() -> (t: LatencyTotals)
        ensures
            t.total_ms == 0,
            t.count == 0,
    {
        LatencyTotals { total_ms: 0, count: 0 }
    }

    /// Adds one translation that took `elapsed_ms` milliseconds.
    pub fn record(&mut self, elapsed_ms: u64)
        requires
            old(self).total_ms + elapsed_ms <= u64::MAX,
            old(self).count < u64::MAX,
        ensures
            final(self).total_ms == old(self).total_ms + elapsed_ms,
            final(self).count == old(self).count + 1,
    {
        self.total_ms = self.total_ms + elapsed_ms;
        self.count = self.count + 1;
    }

    /// The average latency in whole milliseconds (rounded down).
    pub fn average_ms(&self) -> (avg: u64)
        requires
            self.count > 0,
        ensures
            avg == self.total_ms / self.count,
    {
        self.total_ms / self.count
    }
}

} // verus!
