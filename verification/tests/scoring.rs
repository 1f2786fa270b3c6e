//! The power-scoring decision and the annealing-curve fragments.

use libaflgo::score::{cooling_linear, cooling_quadratic};
use libaflgo::{
    CoolingSchedule, DistanceMetadata, DistancePowerTestcaseScore, DistanceTestcaseMetadata,
    MetricValue, Progress, ScoreDecision, SimilarityMetadata, SimilarityTestcaseMetadata,
};

fn value(num: u64, den: u64) -> MetricValue {
    MetricValue::new(num, den)
}

fn as_f64(v: MetricValue) -> f64 {
    v.num as f64 / 1e3 / v.den as f64
}

/// A distance range 0 .. 10 with the given schedule, campaign start at 0.
fn range_metadata(schedule: Option<CoolingSchedule>) -> DistanceMetadata {
    let mut metadata = DistanceMetadata::with_schedule(schedule, 600_000, 0);
    metadata.update_range(value(0, 1));
    metadata.update_range(value(10_000, 1));
    metadata
}

#[test]
fn score_without_signal_keeps_the_baseline() {
    let metadata = range_metadata(Some(CoolingSchedule::Exponential));
    let entry = DistanceTestcaseMetadata::new(value(0, 0));
    let decision = DistancePowerTestcaseScore::compute(&entry, None, &metadata, None, 1_000);
    assert!(matches!(decision, ScoreDecision::Baseline));
}

#[test]
fn score_without_schedule_keeps_the_baseline() {
    let metadata = range_metadata(None);
    let entry = DistanceTestcaseMetadata::new(value(2_500, 1));
    let decision = DistancePowerTestcaseScore::compute(&entry, None, &metadata, None, 1_000);
    assert!(matches!(decision, ScoreDecision::Baseline));
}

#[test]
fn score_without_spread_keeps_the_baseline() {
    // No acceptance yet: no range at all.
    let metadata = DistanceMetadata::with_schedule(Some(CoolingSchedule::Linear), 600_000, 0);
    let entry = DistanceTestcaseMetadata::new(value(2_500, 1));
    let decision = DistancePowerTestcaseScore::compute(&entry, None, &metadata, None, 1_000);
    assert!(matches!(decision, ScoreDecision::Baseline));

    // One acceptance: min and max coincide, nothing to normalize against.
    let mut metadata = DistanceMetadata::with_schedule(Some(CoolingSchedule::Linear), 600_000, 0);
    metadata.update_range(value(4_000, 1));
    let decision = DistancePowerTestcaseScore::compute(&entry, None, &metadata, None, 1_000);
    assert!(matches!(decision, ScoreDecision::Baseline));

    // Equal as values counts as equal, whatever the representation.
    let mut metadata = DistanceMetadata::with_schedule(Some(CoolingSchedule::Linear), 600_000, 0);
    metadata.update_range(value(4_000, 1));
    metadata.update_range(value(8_000, 2));
    let decision = DistancePowerTestcaseScore::compute(&entry, None, &metadata, None, 1_000);
    assert!(matches!(decision, ScoreDecision::Baseline));
}

#[test]
fn fully_directed_score_scenario() {
    // min = 0, max = 10, entry distance 2.5, no similarity, annealing factor
    // t = 0 (fully directed): closeness 0.75, blended p = 0.75, and the
    // power factor is 2^(2 * log2(32) * 0.25) = 2^2.5.
    let metadata = range_metadata(Some(CoolingSchedule::Exponential));
    let entry = DistanceTestcaseMetadata::new(value(2_500, 1));
    let decision = DistancePowerTestcaseScore::compute(&entry, None, &metadata, None, 1_000);
    match decision {
        ScoreDecision::Directed {
            schedule,
            progress,
            distance,
            min_distance,
            max_distance,
            similarity,
        } => {
            assert!(matches!(schedule, CoolingSchedule::Exponential));
            assert_eq!(progress.elapsed_ms, 1_000);
            assert_eq!(progress.time_to_exploit_ms, 600_000);
            assert!(similarity.is_none());

            let norm = (as_f64(distance) - as_f64(min_distance))
                / (as_f64(max_distance) - as_f64(min_distance));
            assert_eq!(norm, 0.25);
            let closeness = 1.0 - norm;
            assert_eq!(closeness, 0.75);

            let t = 0.0;
            let p = closeness * (1.0 - t) + 0.5 * t;
            let power_factor = 2.0_f64.powf(2.0 * 32.0_f64.log2() * (p - 0.5));
            assert!((power_factor - 2.0_f64.powf(2.5)).abs() < 1e-12);
            assert!((power_factor - 5.656854249492381).abs() < 1e-9);

            let baseline = 100.0;
            let score = baseline * power_factor;
            assert!((score - 565.6854249492381).abs() < 1e-9);
            assert!(score <= 6_400.0);
        },
        ScoreDecision::Baseline => panic!("expected a directed decision"),
    }
}

#[test]
fn directed_score_carries_the_similarity_band() {
    let metadata = range_metadata(Some(CoolingSchedule::Quadratic));
    let mut similarity_metadata = SimilarityMetadata::new();
    similarity_metadata.update_range(value(500, 1));
    similarity_metadata.update_range(value(1_000, 1));
    let entry = DistanceTestcaseMetadata::new(value(2_500, 1));
    let entry_similarity = SimilarityTestcaseMetadata::new(value(750, 1));
    let decision = DistancePowerTestcaseScore::compute(
        &entry,
        Some(&entry_similarity),
        &metadata,
        Some(&similarity_metadata),
        1_000,
    );
    match decision {
        ScoreDecision::Directed { similarity, .. } => {
            let band = similarity.expect("similarity band must be attached");
            assert_eq!(band.similarity.num, 750);
            assert_eq!(band.min_similarity.num, 500);
            assert_eq!(band.max_similarity.num, 1_000);
            let norm = (as_f64(band.similarity) - as_f64(band.min_similarity))
                / (as_f64(band.max_similarity) - as_f64(band.min_similarity));
            assert_eq!(norm, 0.5);
        },
        ScoreDecision::Baseline => panic!("expected a directed decision"),
    }
}

#[test]
fn normalize_is_exact() {
    let metadata = range_metadata(Some(CoolingSchedule::Linear));
    // (2.5 - 0) / (10 - 0) = 1/4, exactly.
    let norm = metadata.normalize(value(2_500, 1)).unwrap();
    assert!(!norm.negative);
    assert_eq!(norm.num * 4, norm.den);

    // A value below the minimum normalizes to a negative rational.
    let mut metadata = DistanceMetadata::with_schedule(None, 0, 0);
    metadata.update_range(value(4_000, 1));
    metadata.update_range(value(10_000, 1));
    let norm = metadata.normalize(value(1_000, 1)).unwrap();
    assert!(norm.negative);
    assert_eq!(norm.num * 2, norm.den);

    // Nothing to normalize against before two distinct acceptances, and a
    // value without signal has no place in the band.
    let empty = DistanceMetadata::with_schedule(None, 0, 0);
    assert!(empty.normalize(value(1_000, 1)).is_none());
    assert!(metadata.normalize(value(0, 0)).is_none());
}

#[test]
fn metadata_restores_verbatim() {
    let metadata = DistanceMetadata::restore(
        Some(CoolingSchedule::Quadratic),
        17,
        600_000,
        Some(value(1_000, 1)),
        Some(value(9_000, 2)),
    );
    assert_eq!(metadata.campaign_start_ms(), 17);
    assert_eq!(metadata.time_to_exploit_ms(), 600_000);
    assert_eq!(metadata.min_distance().unwrap().num, 1_000);
    assert_eq!(metadata.max_distance().unwrap().den, 2);
    assert!(matches!(metadata.schedule(), Some(CoolingSchedule::Quadratic)));
}

#[test]
fn cooling_factors_start_at_one() {
    let start = Progress { elapsed_ms: 0, time_to_exploit_ms: 600_000 };
    let (n, d) = cooling_linear(start);
    assert_eq!(n, d);
    let (n, d) = cooling_quadratic(start);
    assert_eq!(n, d);

    // The two transcendental schedules start at one as well:
    // 1 / 20^0 and 1 / (1 + 2 ln(1 + 0 * e^9.5)).
    assert_eq!(1.0 / 20.0_f64.powf(0.0), 1.0);
    assert_eq!(1.0 / (1.0 + 2.0 * f64::ln(1.0 + 0.0 * f64::exp(9.5))), 1.0);
}

#[test]
fn cooling_factors_decay_with_progress() {
    let tte: u64 = 600_000;
    let early = Progress { elapsed_ms: 60_000, time_to_exploit_ms: tte };
    let late = Progress { elapsed_ms: 1_200_000, time_to_exploit_ms: tte };

    // Linear: strictly smaller at later progress, as rationals.
    let (en, ed) = cooling_linear(early);
    let (ln, ld) = cooling_linear(late);
    assert!(ln * ed < en * ld);
    // Exact values: 1 / (1 + 19 * 0.1) = 10/29 and 1 / (1 + 19 * 2) = 1/39.
    assert_eq!(en * 29, ed * 10);
    assert_eq!(ln * 39, ld);

    // Quadratic: 1 / (1 + 19 * 4) = 1/77 at progress 2, and past the
    // deadline it has decayed at least as far as the linear factor.
    let (qn, qd) = cooling_quadratic(late);
    assert!(qn * 77 == qd);
    assert!(qn * ld <= ln * qd);
}
