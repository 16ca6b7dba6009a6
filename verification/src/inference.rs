//! The inference loop: one warm-up pass, then the measured passes.

use vstd::prelude::*;
use crate::bench::{mean_millis, BenchmarkAggregator, LatencyReport};

verus! {

/// Where a run stands.
#[derive(Clone, Copy, Debug, PartialEq, Eq, Structural)]
pub enum Phase {
    /// No pass has finished; the next one warms the backend up.
    WarmUp,
    /// The warm-up is over and measured passes remain.
    Measuring,
    /// Every pass has finished.
    Done,
}

/// What becomes of the results of a pass.
#[derive(Clone, Copy, Debug, PartialEq, Eq, Structural)]
pub enum Disposition {
    /// The latency and the matte are dropped.
    Discard,
    /// The latency is recorded; the matte is dropped.
    Record,
    /// The latency is recorded and the matte becomes the run's image.
    RecordAndEmit,
}

/// The state of a run as mathematical values: how many measured passes are
/// planned, how many passes have finished (the warm-up included), and what
/// has been recorded.
pub struct LoopView {
    pub planned: nat,
    pub passes: nat,
    pub samples: nat,
    pub total_nanos: nat,
}

impl LoopView {
    /// The state of a run of `planned` measured passes before its first pass.
    pub open spec fn start(planned: nat) -> LoopView {
        LoopView { planned, passes: 0, samples: 0, total_nanos: 0 }
    }

    /// The phase of the run. The pass with index 0 is the warm-up, those
    /// with indices 1 to `planned` are measured.
    pub open spec fn phase(self) -> Phase {
        if self.passes == 0 {
            Phase::WarmUp
        } else if self.passes <= self.planned {
            Phase::Measuring
        } else {
            Phase::Done
        }
    }

    /// What becomes of the results of the next pass.
    pub open spec fn disposition(self) -> Disposition {
        if self.passes == 0 || self.passes > self.planned {
            Disposition::Discard
        } else if self.passes == self.planned {
            Disposition::RecordAndEmit
        } else {
            Disposition::Record
        }
    }

    /// The state after the next pass, which took `elapsed_nanos`. A run that
    /// is done stays as it is.
    pub open spec fn after_pass(self, elapsed_nanos: nat) -> LoopView {
        match self.phase() {
            Phase::WarmUp => LoopView { passes: 1, ..self },
            Phase::Measuring => LoopView {
                passes: self.passes + 1,
                samples: self.samples + 1,
                total_nanos: self.total_nanos + elapsed_nanos,
                ..self
            },
            Phase::Done => self,
        }
    }

    /// The state after a sequence of passes with the given latencies.
    pub open spec fn after_passes(self, elapsed_nanos: Seq<nat>) -> LoopView
        decreases elapsed_nanos.len(),
    {
        if elapsed_nanos.len() == 0 {
            self
        } else {
            self.after_passes(elapsed_nanos.drop_last()).after_pass(elapsed_nanos.last())
        }
    }

    /// Every finished pass but the warm-up has been recorded, and no more
    /// passes have finished than the run has.
    pub open spec fn well_formed(self) -> bool {
        &&& self.passes <= self.planned + 1
        &&& self.passes == 0 ==> self.samples == 0 && self.total_nanos == 0
        &&& self.passes > 0 ==> self.samples == self.passes - 1
    }
}

/// The sum of a sequence of latencies.
pub open spec fn sum_nanos(elapsed_nanos: Seq<nat>) -> nat
    decreases elapsed_nanos.len(),
{
    if elapsed_nanos.len() == 0 {
        0
    } else {
        sum_nanos(elapsed_nanos.drop_last()) + elapsed_nanos.last()
    }
}

/// A pass keeps a run well formed.
pub proof fn lemma_pass_keeps_well_formed(before: LoopView, elapsed_nanos: nat)
    requires
        before.well_formed(),
    ensures
        before.after_pass(elapsed_nanos).well_formed(),
        before.after_pass(elapsed_nanos).planned == before.planned,
{
}

/// After `passes` passes, a run has recorded the latencies of all of them
/// but the first, and of none beyond its planned number.
pub proof fn lemma_progress(planned: nat, elapsed_nanos: Seq<nat>)
    requires
        elapsed_nanos.len() <= planned + 1,
    ensures
        LoopView::start(planned).after_passes(elapsed_nanos).well_formed(),
        LoopView::start(planned).after_passes(elapsed_nanos).planned == planned,
        LoopView::start(planned).after_passes(elapsed_nanos).passes == elapsed_nanos.len(),
        elapsed_nanos.len() > 0 ==> LoopView::start(planned).after_passes(
            elapsed_nanos,
        ).total_nanos == sum_nanos(elapsed_nanos.subrange(1, elapsed_nanos.len() as int)),
    decreases elapsed_nanos.len(),
{
    if elapsed_nanos.len() > 0 {
        let earlier = elapsed_nanos.drop_last();
        lemma_progress(planned, earlier);
        if earlier.len() > 0 {
            let measured = elapsed_nanos.subrange(1, elapsed_nanos.len() as int);
            assert(measured.drop_last() =~= earlier.subrange(1, earlier.len() as int));
            assert(measured.last() == elapsed_nanos.last());
        } else {
            assert(elapsed_nanos.subrange(1, elapsed_nanos.len() as int).len() == 0);
        }
    }
}

/// The warm-up is never counted: a finished run of `planned` measured passes
/// has made `planned + 1` passes and recorded exactly `planned` latencies,
/// those of all passes but the first.
pub proof fn lemma_warm_up_is_excluded(planned: nat, elapsed_nanos: Seq<nat>)
    requires
        elapsed_nanos.len() == planned + 1,
    ensures
        LoopView::start(planned).after_passes(elapsed_nanos).phase() == Phase::Done,
        LoopView::start(planned).after_passes(elapsed_nanos).samples == planned,
        LoopView::start(planned).after_passes(elapsed_nanos).total_nanos == sum_nanos(
            elapsed_nanos.subrange(1, elapsed_nanos.len() as int),
        ),
{
    lemma_progress(planned, elapsed_nanos);
}

/// The progress of one run: its phase and the latencies recorded so far.
pub struct InferenceLoop {
    planned: u64,
    warmed: bool,
    aggregator: BenchmarkAggregator,
}

impl View for InferenceLoop {
    type V = LoopView;

    closed spec fn view(&self) -> LoopView {
        LoopView {
            planned: self.planned as nat,
            passes: if self.warmed {
                self.aggregator.spec_sample_count() + 1
            } else {
                0
            },
            samples: self.aggregator.spec_sample_count(),
            total_nanos: self.aggregator.spec_total_nanos(),
        }
    }
}

impl InferenceLoop {
    #[verifier::type_invariant]
    closed spec fn holds(&self) -> bool {
        self@.well_formed()
    }

    /// The progress of a run of `planned` measured passes that has not
    /// begun.
    pub fn new(planned: u64) -> (fresh: InferenceLoop)
        ensures
            fresh@ == LoopView::start(planned as nat),
    {
        InferenceLoop { planned, warmed: false, aggregator: BenchmarkAggregator::new() }
    }

    /// The phase of the run.
    pub fn phase(&self) -> (phase: Phase)
        ensures
            phase == self@.phase(),
            self@.well_formed(),
    {
        proof {
            use_type_invariant(self);
        }
        if !self.warmed {
            Phase::WarmUp
        } else if self.aggregator.sample_count() < self.planned {
            Phase::Measuring
        } else {
            Phase::Done
        }
    }

    /// Takes note that the next pass has finished after `elapsed_nanos`, and
    /// says what becomes of its results.
    pub fn complete_pass(&mut self, elapsed_nanos: u64) -> (disposition: Disposition)
        requires
            old(self)@.phase() != Phase::Done,
        ensures
            final(self)@ == old(self)@.after_pass(elapsed_nanos as nat),
            disposition == old(self)@.disposition(),
            final(self)@.well_formed(),
    {
        proof {
            use_type_invariant(&*self);
        }
        if !self.warmed {
            self.warmed = true;
            Disposition::Discard
        } else {
            let mut aggregator = self.aggregator;
            aggregator.record(elapsed_nanos);
            self.aggregator = aggregator;
            if aggregator.sample_count() == self.planned {
                Disposition::RecordAndEmit
            } else {
                Disposition::Record
            }
        }
    }

    /// The number of measured passes that the run has.
    pub fn planned(&self) -> (planned: u64)
        ensures
            planned == self@.planned,
    {
        self.planned
    }

    /// What the run has measured so far.
    pub fn report(&self) -> (report: LatencyReport)
        ensures
            report.samples == self@.samples,
            mean_millis(self@.total_nanos, self@.samples) == match report.mean_ms {
                Some(ms) => Some(ms as nat),
                None => None::<nat>,
            },
    {
        self.aggregator.report()
    }
}

} // verus!
