//! The metric collectors: per-execution accumulation and reset behaviour.

use libaflgo::dafl::DAFLStats;
use libaflgo::distance::{compute_test_case_distance, reset_distance_stats, DistanceStats};
use libaflgo::similarity::SimilarityStats;

const RESOLUTION: f64 = 1e3;

#[test]
fn dafl_test_distance_calculation() {
    let mut stats = DAFLStats::new();
    stats.reset();

    stats.add_bb_relevance(1);
    stats.add_bb_relevance(2);

    let test_case_relevance = stats.compute_test_case_relevance();
    assert_eq!(test_case_relevance, 3);

    stats.reset();

    let test_case_relevance = stats.compute_test_case_relevance();
    assert_eq!(test_case_relevance, 0);
}

#[test]
fn distance_test_distance_calculation() {
    let mut stats = DistanceStats::new();
    stats.reset();

    stats.add_bb_distance(1 * RESOLUTION as u64);
    stats.add_bb_distance(2 * RESOLUTION as u64);

    let value = stats.compute_test_case_distance();
    let test_case_distance = value.num as f64 / RESOLUTION / value.den as f64;
    assert_eq!(test_case_distance, 1.5);

    stats.reset();

    let value = stats.compute_test_case_distance();
    let test_case_distance = value.num as f64 / RESOLUTION / value.den as f64;
    assert!(test_case_distance.is_nan());
    assert!(!value.is_finite());
}

#[test]
fn test_similarity_calculation() {
    let mut stats = SimilarityStats::new();
    stats.reset();

    // Reciprocal inter-procedural distances 1.0 and 2.0, pre-scaled the way
    // the instrumentation scales them before they reach the collector.
    stats.add_similarity_increment(((1_f64 / 1.0) * RESOLUTION).trunc() as u64);
    stats.add_similarity_increment(((1_f64 / 2.0) * RESOLUTION).trunc() as u64);

    let value = stats.compute_similarity();
    let test_case_similarity = value.num as f64 / RESOLUTION / value.den as f64;
    assert_eq!(test_case_similarity, 0.75);

    stats.reset();

    let value = stats.compute_similarity();
    let test_case_similarity = value.num as f64 / RESOLUTION / value.den as f64;
    assert!(test_case_similarity.is_nan());
    assert!(!value.is_finite());
}

#[test]
fn it_works() {
    let mut stats = DistanceStats::new();
    reset_distance_stats(&mut stats);

    stats.add_bb_distance((1.0 * RESOLUTION) as u64);
    stats.add_bb_distance((2.0 * RESOLUTION) as u64);

    let value = compute_test_case_distance(&stats);
    let test_case_distance = value.num as f64 / RESOLUTION / value.den as f64;
    assert_eq!(test_case_distance, 1.5);

    reset_distance_stats(&mut stats);

    let value = compute_test_case_distance(&stats);
    let test_case_distance = value.num as f64 / RESOLUTION / value.den as f64;
    assert!(test_case_distance.is_nan());
}

#[test]
fn accumulation_is_order_independent() {
    let mut a = DistanceStats::new();
    let mut b = DistanceStats::new();
    for v in [1500u64, 2500, 500] {
        a.add_bb_distance(v);
    }
    for v in [500u64, 1500, 2500] {
        b.add_bb_distance(v);
    }
    let va = a.compute_test_case_distance();
    let vb = b.compute_test_case_distance();
    assert_eq!(va.num, vb.num);
    assert_eq!(va.den, vb.den);
    assert_eq!(va.num, 4500);
    assert_eq!(va.den, 3);
}

#[test]
fn empty_window_has_no_signal() {
    let stats = DistanceStats::new();
    let value = stats.compute_test_case_distance();
    assert!(!value.is_finite());
    assert_eq!(value.den, 0);

    let stats = SimilarityStats::new();
    let value = stats.compute_similarity();
    assert!(!value.is_finite());

    let stats = DAFLStats::new();
    assert_eq!(stats.compute_test_case_relevance(), 0);
}
