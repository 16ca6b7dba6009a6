use matting_bench::bench::{BenchmarkAggregator, LatencyReport};
use matting_bench::inference::{Disposition, InferenceLoop, Phase};

#[test]
fn empty_aggregator_has_no_mean() {
    let aggregator = BenchmarkAggregator::new();
    assert_eq!(aggregator.sample_count(), 0);
    assert_eq!(aggregator.total_nanos(), 0);
    assert_eq!(aggregator.mean_ms(), None);
    assert_eq!(aggregator.report(), LatencyReport { samples: 0, mean_ms: None });
}

#[test]
fn mean_cuts_to_milliseconds_before_it_divides() {
    let mut aggregator = BenchmarkAggregator::new();
    aggregator.record(1_999_999);
    aggregator.record(1_999_999);
    aggregator.record(1_999_999);
    // 5_999_997 ns are 5 whole ms; 5 / 3 is 1.
    assert_eq!(aggregator.total_nanos(), 5_999_997);
    assert_eq!(aggregator.sample_count(), 3);
    assert_eq!(aggregator.mean_ms(), Some(1));
}

#[test]
fn mean_of_ten_samples() {
    let mut aggregator = BenchmarkAggregator::new();
    for i in 0..10u64 {
        aggregator.record(20_000_000 + i * 1_000_000);
    }
    // 245 ms over 10 samples.
    assert_eq!(aggregator.mean_ms(), Some(24));
    assert_eq!(aggregator.report(), LatencyReport { samples: 10, mean_ms: Some(24) });
}

#[test]
fn mean_below_a_millisecond_is_zero() {
    let mut aggregator = BenchmarkAggregator::new();
    aggregator.record(999_999);
    assert_eq!(aggregator.mean_ms(), Some(0));
}

#[test]
fn total_holds_more_than_one_largest_sample() {
    let mut aggregator = BenchmarkAggregator::new();
    aggregator.record(u64::MAX);
    aggregator.record(u64::MAX);
    assert_eq!(aggregator.total_nanos(), 2 * (u64::MAX as u128));
    assert_eq!(aggregator.mean_ms(), Some((2 * (u64::MAX as u128) / 1_000_000) / 2));
}

#[test]
fn loop_of_three_measured_passes() {
    let mut progress = InferenceLoop::new(3);
    assert_eq!(progress.planned(), 3);
    assert_eq!(progress.phase(), Phase::WarmUp);
    assert_eq!(progress.complete_pass(900_000_000), Disposition::Discard);
    assert_eq!(progress.phase(), Phase::Measuring);
    assert_eq!(progress.report().samples, 0);
    assert_eq!(progress.complete_pass(3_000_000), Disposition::Record);
    assert_eq!(progress.phase(), Phase::Measuring);
    assert_eq!(progress.complete_pass(4_000_000), Disposition::Record);
    assert_eq!(progress.phase(), Phase::Measuring);
    assert_eq!(progress.complete_pass(8_000_000), Disposition::RecordAndEmit);
    assert_eq!(progress.phase(), Phase::Done);
    assert_eq!(progress.report(), LatencyReport { samples: 3, mean_ms: Some(5) });
}

#[test]
fn loop_of_one_measured_pass() {
    let mut progress = InferenceLoop::new(1);
    assert_eq!(progress.complete_pass(50_000_000), Disposition::Discard);
    assert_eq!(progress.phase(), Phase::Measuring);
    assert_eq!(progress.complete_pass(7_500_000), Disposition::RecordAndEmit);
    assert_eq!(progress.phase(), Phase::Done);
    assert_eq!(progress.report(), LatencyReport { samples: 1, mean_ms: Some(7) });
}

#[test]
fn loop_without_measured_passes_ends_after_the_warm_up() {
    let mut progress = InferenceLoop::new(0);
    assert_eq!(progress.phase(), Phase::WarmUp);
    assert_eq!(progress.complete_pass(50_000_000), Disposition::Discard);
    assert_eq!(progress.phase(), Phase::Done);
    assert_eq!(progress.report(), LatencyReport { samples: 0, mean_ms: None });
}

#[test]
fn warm_up_is_never_counted() {
    for planned in [1u64, 2, 5, 10, 100] {
        let mut progress = InferenceLoop::new(planned);
        let mut passes = 0u64;
        while progress.phase() != Phase::Done {
            progress.complete_pass(1_000_000);
            passes += 1;
        }
        assert_eq!(passes, planned + 1);
        assert_eq!(progress.report().samples, planned);
        assert_eq!(progress.report().mean_ms, Some(1));
    }
}
