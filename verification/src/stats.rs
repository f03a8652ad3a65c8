//! Outcome counting and the final report.

use vstd::prelude::*;

verus! {

/// Counters for one run: every item seen, the rows durably handed to the
/// store, and everything else.
///
/// A well-formed value always satisfies `total == success + fail`.
#[derive(PartialEq, Eq, Structural, Clone, Copy, Debug)]
pub struct ProcessingStats {
    /// Every item seen from the source, success or failure.
    pub total: u64,
    /// Rows that reached a durable insert call without error.
    pub success: u64,
    /// Parse errors, validation errors, and insert errors.
    pub fail: u64,
}

impl ProcessingStats {
    /// Every item is accounted for exactly once.
    pub open spec fn consistent(self) -> bool {
        self.total == self.success + self.fail
    }

    /// Fresh counters with nothing seen yet.
    pub fn new() -> (r: ProcessingStats)
        ensures
            r == (ProcessingStats { total: 0u64, success: 0u64, fail: 0u64 }),
            r.consistent(),
    {
        ProcessingStats { total: 0, success: 0, fail: 0 }
    }

    /// Count one item that was durably handed to the store.
    pub fn record_success(&mut self)
        requires
            old(self).total < u64::MAX,
            old(self).consistent(),
        ensures
            *final(self) == (ProcessingStats {
                total: (old(self).total + 1) as u64,
                success: (old(self).success + 1) as u64,
                fail: old(self).fail,
            }),
            final(self).consistent(),
    {
        self.total = self.total + 1;
        self.success = self.success + 1;
    }

    /// Count one item that failed to parse, validate, or insert.
    pub fn record_failure(&mut self)
        requires
            old(self).total < u64::MAX,
            old(self).consistent(),
        ensures
            *final(self) == (ProcessingStats {
                total: (old(self).total + 1) as u64,
                success: old(self).success,
                fail: (old(self).fail + 1) as u64,
            }),
            final(self).consistent(),
    {
        self.total = self.total + 1;
        self.fail = self.fail + 1;
    }
}

impl Default for ProcessingStats {
    /// Fresh counters with nothing seen yet.
    fn default() -> (r: Self)
        ensures
            r == (ProcessingStats { total: 0u64, success: 0u64, fail: 0u64 }),
    {
        ProcessingStats::new()
    }
}

/// Rows per second from a success count and a duration in milliseconds:
/// `0` when the duration measures as zero, otherwise the integer quotient,
/// saturating at `u64::MAX`.
pub open spec fn spec_throughput(success: u64, elapsed_millis: u64) -> int {
    if elapsed_millis == 0 {
        0
    } else if success * 1000 / (elapsed_millis as int) > u64::MAX {
        u64::MAX as int
    } else {
        success * 1000 / (elapsed_millis as int)
    }
}

/// Successfully persisted rows per second of wall-clock elapsed time,
/// reported as `0` when the elapsed time measures as zero, and saturating
/// at `u64::MAX`.
pub fn throughput_rows_per_sec(success: u64, elapsed_millis: u64) -> (r: u64)
    ensures
        r == spec_throughput(success, elapsed_millis),
{
    if elapsed_millis == 0 {
        0
    } else {
        let q: u128 = (success as u128) * 1000 / (elapsed_millis as u128);
        if q > u64::MAX as u128 {
            u64::MAX
        } else {
            q as u64
        }
    }
}

/// The final snapshot of one completed run.
#[derive(PartialEq, Eq, Structural, Clone, Copy, Debug)]
pub struct RunReport {
    /// The run's counters.
    pub stats: ProcessingStats,
    /// Wall-clock duration of the run, in milliseconds.
    pub elapsed_millis: u64,
    /// Successful rows per second, `0` when the elapsed time is zero.
    pub throughput: u64,
}

/// Build the final report from the counters and the measured duration.
pub fn build_report(stats: ProcessingStats, elapsed_millis: u64) -> (r: RunReport)
    ensures
        r.stats == stats,
        r.elapsed_millis == elapsed_millis,
        r.throughput == spec_throughput(stats.success, elapsed_millis),
{
    let throughput = throughput_rows_per_sec(stats.success, elapsed_millis);
    RunReport { stats, elapsed_millis, throughput }
}

} // verus!
