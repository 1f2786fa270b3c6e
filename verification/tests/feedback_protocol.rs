//! The decide-then-commit feedback protocol and the running statistics.

use libaflgo::average::RunningAverage;
use libaflgo::dafl::{
    DAFLFeedback, DAFLMetadata, DAFLObserver, DAFLPowerTestcaseScore, DAFLStats,
    DAFLWeightTestcaseScore, InProcessDAFLObserver,
};
use libaflgo::distance::{DistanceStats, InProcessDistanceObserver};
use libaflgo::{
    CoolingSchedule, DistanceFeedback, DistanceObserver, FeedbackError, MetricValue,
    SimilarityFeedback, SimilarityMetadata,
};

fn value(num: u64, den: u64) -> MetricValue {
    MetricValue::new(num, den)
}

#[test]
fn distance_feedback_accepts_then_rejects_worse() {
    let observer = InProcessDistanceObserver::new(String::from("distance"));
    let mut feedback =
        DistanceFeedback::with_observer(&observer, Some(CoolingSchedule::Exponential), 600_000);
    assert_eq!(feedback.name(), "distance");

    let mut metadata = feedback.init_metadata(0);
    assert!(metadata.min_distance().is_none());

    // First finite distance is always interesting.
    assert!(feedback.is_interesting(value(2000, 1), &metadata));
    let attached = feedback.append_metadata(&mut metadata).unwrap();
    assert_eq!(attached.distance().num, 2000);
    assert_eq!(metadata.min_distance().unwrap().num, 2000);
    assert_eq!(metadata.max_distance().unwrap().num, 2000);

    // A strictly lower distance is interesting; an equal or higher one not.
    assert!(feedback.is_interesting(value(1500, 1), &metadata));
    feedback.discard_metadata();
    assert!(!feedback.is_interesting(value(2000, 1), &metadata));
    assert!(!feedback.is_interesting(value(2500, 1), &metadata));
    // A value without signal is never interesting.
    assert!(!feedback.is_interesting(value(0, 0), &metadata));
}

#[test]
fn rejected_executions_leave_statistics_unchanged() {
    let mut feedback = DistanceFeedback::new(String::from("distance"), None, 0);
    let mut metadata = feedback.init_metadata(0);

    assert!(feedback.is_interesting(value(1000, 1), &metadata));
    feedback.append_metadata(&mut metadata).unwrap();

    // Rejected: worse than the current minimum. The decision itself cannot
    // touch the statistics, and no commit follows.
    assert!(!feedback.is_interesting(value(3000, 1), &metadata));
    feedback.discard_metadata();
    assert_eq!(metadata.min_distance().unwrap().num, 1000);
    assert_eq!(metadata.min_distance().unwrap().den, 1);
    assert_eq!(metadata.max_distance().unwrap().num, 1000);
}

#[test]
fn bounds_tighten_monotonically() {
    let mut feedback = SimilarityFeedback::new(String::from("similarity"));
    let mut metadata = SimilarityMetadata::new();

    let mut last_min = None;
    let mut last_max = None;
    for v in [(900u64, 1u64), (700, 1), (300, 1), (100, 1)] {
        assert!(feedback.is_interesting(value(v.0, v.1), &metadata));
        feedback.append_metadata(&mut metadata).unwrap();
        let min = metadata.min_similarity().unwrap();
        let max = metadata.max_similarity().unwrap();
        if let Some((n, d)) = last_min {
            // min never rises: min <= previous min, as rationals.
            assert!((min.num as u128) * d <= n * (min.den as u128));
        }
        if let Some((n, d)) = last_max {
            // max never falls: max >= previous max, as rationals.
            assert!((max.num as u128) * d >= n * (max.den as u128));
        }
        // The committed value lies inside the tightened range.
        assert!((min.num as u128) * (v.1 as u128) <= (v.0 as u128) * (min.den as u128));
        assert!((v.0 as u128) * (max.den as u128) <= (max.num as u128) * (v.1 as u128));
        last_min = Some((min.num as u128, min.den as u128));
        last_max = Some((max.num as u128, max.den as u128));
    }
}

#[test]
fn commit_without_pending_value_fails() {
    let mut feedback = DistanceFeedback::new(String::from("distance"), None, 0);
    let mut metadata = feedback.init_metadata(0);
    assert_eq!(feedback.append_metadata(&mut metadata).unwrap_err(), FeedbackError::ValueNotSet);

    let mut feedback = DAFLFeedback::new(String::from("dafl"));
    let mut metadata = DAFLMetadata::new();
    assert_eq!(
        feedback.append_metadata(&mut metadata, 1).unwrap_err(),
        FeedbackError::ValueNotSet
    );
}

#[test]
fn observers_snapshot_the_collector() {
    let mut stats = DistanceStats::new();
    let mut observer = InProcessDistanceObserver::new(String::from("distance"));
    observer.pre_exec(&mut stats);
    stats.add_bb_distance(1000);
    stats.add_bb_distance(2000);
    observer.post_exec(&stats);
    let d = observer.distance();
    assert_eq!(d.num, 3000);
    assert_eq!(d.den, 2);

    // The next execution starts from a clean window.
    observer.pre_exec(&mut stats);
    observer.post_exec(&stats);
    assert!(!observer.distance().is_finite());
}

#[test]
fn dafl_feedback_wants_higher_nonzero_relevance() {
    let mut stats = DAFLStats::new();
    let mut observer = InProcessDAFLObserver::new(String::from("dafl"));
    let mut feedback = DAFLFeedback::with_observer(&observer);
    assert_eq!(feedback.name(), "dafl");
    let mut metadata = DAFLMetadata::new();

    observer.pre_exec(&mut stats);
    stats.add_bb_relevance(5);
    observer.post_exec(&stats);
    assert!(feedback.is_interesting(observer.relevance(), &metadata));
    let attached = feedback.append_metadata(&mut metadata, 1).unwrap();
    assert_eq!(attached.relevance(), 5);

    // Zero relevance is never interesting; neither is anything at or below
    // the running minimum.
    assert!(!feedback.is_interesting(0, &metadata));
    assert!(!feedback.is_interesting(5, &metadata));
    assert!(feedback.is_interesting(6, &metadata));
    feedback.discard_metadata();
    assert_eq!(metadata.min_relevance(), Some(5));
    assert_eq!(metadata.max_relevance(), Some(5));
}

#[test]
fn online_average_matches_arithmetic_mean() {
    // Accepted relevance 1, 2, 3 with the corpus growing by one each time:
    // the online recurrence lands exactly on the arithmetic mean 2.
    let mut metadata = DAFLMetadata::new();
    metadata.update(1, 1).unwrap();
    metadata.update(2, 2).unwrap();
    metadata.update(3, 3).unwrap();
    let avg = metadata.avg_relevance().unwrap();
    assert_eq!(avg.num(), 2);
    assert_eq!(avg.den(), 1);
}

#[test]
fn online_average_follows_the_recurrence() {
    // With an arbitrary corpus-size sequence the recurrence is applied in
    // order: start at 4, then 4 + (10 - 4) / 3 = 6.
    let mut avg = RunningAverage::first(4);
    avg.update(10, 3).unwrap();
    assert_eq!(avg.num(), 6);
    assert_eq!(avg.den(), 1);
    // 6 + (1 - 6) / 2 = 7/2.
    avg.update(1, 2).unwrap();
    assert_eq!(avg.num(), 7);
    assert_eq!(avg.den(), 2);
}

#[test]
fn exact_average_overflow_is_reported() {
    let q = u64::MAX;
    let mut avg = RunningAverage::first(1);
    avg.update(2, q).unwrap();
    avg.update(1, q).unwrap();
    assert_eq!(avg.update(1, 2).unwrap_err(), FeedbackError::AverageOverflow);
    // The average is left untouched by the failed step.
    let n = avg.num();
    assert_eq!(avg.update(1, 2).unwrap_err(), FeedbackError::AverageOverflow);
    assert_eq!(avg.num(), n);
}

#[test]
fn relevance_scores_relative_to_average() {
    let mut metadata = DAFLMetadata::new();
    let entry = libaflgo::dafl::DAFLTestcaseMetadata::new(6);
    assert_eq!(entry.relevance(), 6);
    assert_eq!(DAFLWeightTestcaseScore::compute(&entry), 6);

    // Before any acceptance the average is undefined: a caller-ordering
    // error.
    assert_eq!(
        DAFLPowerTestcaseScore::compute(&entry, &metadata).unwrap_err(),
        FeedbackError::AverageNotSet
    );

    metadata.update(2, 1).unwrap();
    metadata.update(4, 2).unwrap();
    let (relevance, avg) = DAFLPowerTestcaseScore::compute(&entry, &metadata).unwrap();
    assert_eq!(relevance, 6);
    // Average is exactly 3, so the factor relevance / average is 2.
    assert_eq!(avg.num(), 3);
    assert_eq!(avg.den(), 1);
}
