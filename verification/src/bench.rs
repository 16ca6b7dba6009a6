//! Accumulation of the measured latencies and their mean.

use vstd::prelude::*;

verus! {

/// The number of nanoseconds in a millisecond.
pub const NANOS_PER_MILLI: u128 = 1_000_000;

/// The mean latency in whole milliseconds of `samples` measurements that
/// took `total_nanos` together: the total is cut to whole milliseconds
/// first and divided afterwards. Without measurements there is no mean.
pub open spec fn mean_millis(total_nanos: nat, samples: nat) -> Option<nat> {
    if samples == 0 {
        None
    } else {
        Some((total_nanos / 1_000_000) / samples)
    }
}

/// What one finished run reports: how many passes were measured and their
/// mean latency in whole milliseconds, absent when nothing was measured.
#[derive(Clone, Copy, Debug, PartialEq, Eq, Structural)]
pub struct LatencyReport {
    pub samples: u64,
    pub mean_ms: Option<u128>,
}

/// Sums the latencies of the measured passes of one run.
#[derive(Clone, Copy, Debug)]
pub struct BenchmarkAggregator {
    total_nanos: u128,
    samples: u64,
}

impl BenchmarkAggregator {
    #[verifier::type_invariant]
    closed spec fn bounded(&self) -> bool {
        self.total_nanos <= self.samples * u64::MAX
    }

    /// The sum of the recorded latencies, in nanoseconds.
    pub closed spec fn spec_total_nanos(&self) -> nat {
        self.total_nanos as nat
    }

    /// The number of recorded latencies.
    pub closed spec fn spec_sample_count(&self) -> nat {
        self.samples as nat
    }

    /// An aggregator that has recorded nothing.
    pub fn new() -> (fresh: BenchmarkAggregator)
        ensures
            fresh.spec_total_nanos() == 0,
            fresh.spec_sample_count() == 0,
    {
        BenchmarkAggregator { total_nanos: 0, samples: 0 }
    }

    /// Adds the latency of one measured pass.
    pub fn record(&mut self, elapsed_nanos: u64)
        requires
            old(self).spec_sample_count() < u64::MAX,
        ensures
            final(self).spec_total_nanos() == old(self).spec_total_nanos() + elapsed_nanos,
            final(self).spec_sample_count() == old(self).spec_sample_count() + 1,
    {
        proof {
            use_type_invariant(&*self);
            assert(self.samples * u64::MAX + u64::MAX == (self.samples + 1) * u64::MAX)
                by (nonlinear_arith);
            assert((self.samples + 1) * u64::MAX <= u64::MAX * u64::MAX) by (nonlinear_arith)
                requires
                    self.samples + 1 <= u64::MAX,
            ;
        }
        self.samples = self.samples + 1;
        self.total_nanos = self.total_nanos + elapsed_nanos as u128;
    }

    /// The number of recorded latencies.
    pub fn sample_count(&self) -> (count: u64)
        ensures
            count == self.spec_sample_count(),
    {
        self.samples
    }

    /// The sum of the recorded latencies, in nanoseconds.
    pub fn total_nanos(&self) -> (total: u128)
        ensures
            total == self.spec_total_nanos(),
    {
        self.total_nanos
    }

    /// The mean latency in whole milliseconds, or `None` when nothing was
    /// recorded.
    pub fn mean_ms(&self) -> (mean: Option<u128>)
        ensures
            mean.is_some() == (self.spec_sample_count() > 0),
            mean_millis(self.spec_total_nanos(), self.spec_sample_count()) == match mean {
                Some(ms) => Some(ms as nat),
                None => None::<nat>,
            },
    {
        if self.samples == 0 {
            None
        } else {
            Some((self.total_nanos / NANOS_PER_MILLI) / (self.samples as u128))
        }
    }

    /// The report of the run that this aggregator has measured.
    pub fn report(&self) -> (report: LatencyReport)
        ensures
            report.samples == self.spec_sample_count(),
            mean_millis(self.spec_total_nanos(), self.spec_sample_count()) == match report.mean_ms {
                Some(ms) => Some(ms as nat),
                None => None::<nat>,
            },
    {
        LatencyReport { samples: self.samples, mean_ms: self.mean_ms() }
    }
}

} // verus!
