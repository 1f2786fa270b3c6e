//! Cooling-schedule power scoring, distance variant.
//!
//! Given a corpus entry's attached distance (and optionally similarity) and
//! the durable statistics, the scorer decides whether the entry gets a
//! directed bias at all, and if so, which exact quantities the bias is built
//! from: the cooling schedule, the campaign progress and the entry's
//! position inside the observed range. The transcendental evaluation of the
//! annealing curve and the final blending onto the baseline power score are
//! the engine adapter's concern; every branch that decides between baseline
//! and directed behaviour is taken here, on exact rationals.

use vstd::prelude::*;

use crate::feedback::{
    CoolingSchedule, DistanceMetadata, DistanceTestcaseMetadata, Progress, SimilarityMetadata,
    SimilarityTestcaseMetadata,
};
use crate::metric::MetricValue;

verus! {

/// The range statistics span a usable band: both bounds are set and they
/// differ as values. Bounds without signal never differ as values, so no
/// band is usable before the first finite acceptance.
pub open spec fn spec_range_usable(min: Option<MetricValue>, max: Option<MetricValue>) -> bool {
    match (min, max) {
        (Option::Some(mn), Option::Some(mx)) => !mn.spec_eq_value(mx),
        _ => false,
    }
}

/// The similarity term of a directed decision: the entry's similarity and
/// the band to normalize it against.
#[derive(Clone, Copy, Debug, PartialEq, Eq, Structural)]
pub struct SimilarityBand {
    pub similarity: MetricValue,
    pub min_similarity: MetricValue,
    pub max_similarity: MetricValue,
}

/// What the power schedule should do with one corpus entry: fall back to
/// the plain baseline score, or bias it with the given exact quantities.
#[derive(Clone, Copy, Debug, PartialEq, Eq, Structural)]
pub enum ScoreDecision {
    /// No directed signal, no configured schedule, or no usable range yet:
    /// the baseline power score applies unchanged.
    Baseline,
    /// Bias the baseline: normalize `distance` into the range, take the
    /// closeness `1 - normalized` (times the normalized similarity, when
    /// present), anneal it by the schedule at the given progress, and scale
    /// the baseline by two to the power of that blend on a log scale.
    Directed {
        schedule: CoolingSchedule,
        progress: Progress,
        distance: MetricValue,
        min_distance: MetricValue,
        max_distance: MetricValue,
        similarity: Option<SimilarityBand>,
    },
}

/// Power scoring, distance variant: decides per entry between baseline and
/// directed bias.
pub struct DistancePowerTestcaseScore;

impl DistancePowerTestcaseScore {
    /// Decide how to score one corpus entry at time `now_ms`.
    ///
    /// The entry's attached similarity, when present, must come with the
    /// similarity statistics, must carry a signal, and must have a usable
    /// similarity band: an entry with a finite distance was accepted
    /// together with its similarity, so this holds by construction whenever
    /// the pipeline is wired correctly, and only matters once the decision
    /// is directed at all.
    pub fn compute(
        entry_distance: &DistanceTestcaseMetadata,
        entry_similarity: Option<&SimilarityTestcaseMetadata>,
        distance_metadata: &DistanceMetadata,
        similarity_metadata: Option<&SimilarityMetadata>,
        now_ms: u64,
    ) -> (r: ScoreDecision)
        requires
            now_ms >= distance_metadata.spec_campaign_start_ms(),
            ({
                &&& entry_distance.spec_distance().spec_is_finite()
                &&& distance_metadata.spec_schedule() is Some
                &&& spec_range_usable(
                    distance_metadata.spec_min(),
                    distance_metadata.spec_max(),
                )
                &&& entry_similarity is Some
            }) ==> ({
                &&& similarity_metadata is Some
                &&& entry_similarity->Some_0.spec_similarity().spec_is_finite()
                &&& spec_range_usable(
                    similarity_metadata->Some_0.spec_min(),
                    similarity_metadata->Some_0.spec_max(),
                )
            }),
        ensures
            !entry_distance.spec_distance().spec_is_finite() ==> r == ScoreDecision::Baseline,
            distance_metadata.spec_schedule() is None ==> r == ScoreDecision::Baseline,
            !spec_range_usable(distance_metadata.spec_min(), distance_metadata.spec_max())
                ==> r == ScoreDecision::Baseline,
            ({
                &&& entry_distance.spec_distance().spec_is_finite()
                &&& distance_metadata.spec_schedule() is Some
                &&& spec_range_usable(
                    distance_metadata.spec_min(),
                    distance_metadata.spec_max(),
                )
            }) ==> r == (ScoreDecision::Directed {
                schedule: distance_metadata.spec_schedule()->Some_0,
                progress: Progress {
                    elapsed_ms: (now_ms - distance_metadata.spec_campaign_start_ms()) as u64,
                    time_to_exploit_ms: distance_metadata.spec_time_to_exploit_ms(),
                },
                distance: entry_distance.spec_distance(),
                min_distance: distance_metadata.spec_min()->Some_0,
                max_distance: distance_metadata.spec_max()->Some_0,
                similarity: match entry_similarity {
                    Option::None => Option::None,
                    Option::Some(s) => Option::Some(
                        SimilarityBand {
                            similarity: s.spec_similarity(),
                            min_similarity: similarity_metadata->Some_0.spec_min()->Some_0,
                            max_similarity: similarity_metadata->Some_0.spec_max()->Some_0,
                        },
                    ),
                },
            }),
    {
        let distance = entry_distance.distance();
        if !distance.is_finite() {
            // No signal was ever recorded for this entry: plain baseline
            // scheduling applies.
            return ScoreDecision::Baseline;
        }
        let schedule = match distance_metadata.schedule() {
            Option::Some(s) => s,
            Option::None => {
                return ScoreDecision::Baseline;
            },
        };
        let min_distance = match distance_metadata.min_distance() {
            Option::Some(m) => m,
            Option::None => {
                return ScoreDecision::Baseline;
            },
        };
        let max_distance = match distance_metadata.max_distance() {
            Option::Some(m) => m,
            Option::None => {
                return ScoreDecision::Baseline;
            },
        };
        if min_distance.eq_value(&max_distance) {
            // No spread yet: nothing to normalize against.
            return ScoreDecision::Baseline;
        }
        let progress = distance_metadata.progress_to_exploit(now_ms);
        let similarity = match entry_similarity {
            Option::None => Option::None,
            Option::Some(s) => {
                let band = match similarity_metadata {
                    Option::Some(sm) => SimilarityBand {
                        similarity: s.similarity(),
                        min_similarity: match sm.min_similarity() {
                            Option::Some(m) => m,
                            Option::None => unreached(),
                        },
                        max_similarity: match sm.max_similarity() {
                            Option::Some(m) => m,
                            Option::None => unreached(),
                        },
                    },
                    Option::None => unreached(),
                };
                Option::Some(band)
            },
        };
        ScoreDecision::Directed {
            schedule,
            progress,
            distance,
            min_distance,
            max_distance,
            similarity,
        }
    }
}

/// The linear annealing factor `t = 1 / (1 + 19 * p)` at progress
/// `p = elapsed / time_to_exploit`, as the exact rational
/// `tte / (tte + 19 * elapsed)`.
pub fn cooling_linear(progress: Progress) -> (t: (u128, u128))
    ensures
        t.0 == progress.time_to_exploit_ms,
        t.1 == progress.time_to_exploit_ms + 19 * progress.elapsed_ms,
{
    let e = progress.elapsed_ms as u128;
    let d = progress.time_to_exploit_ms as u128;
    (d, d + 19 * e)
}

/// The quadratic annealing factor `t = 1 / (1 + 19 * p^2)` at progress
/// `p = elapsed / time_to_exploit`, as the exact rational
/// `tte^2 / (tte^2 + 19 * elapsed^2)`.
pub fn cooling_quadratic(progress: Progress) -> (t: (u128, u128))
    requires
        progress.elapsed_ms < 0x2000000000000000,
        progress.time_to_exploit_ms < 0x2000000000000000,
    ensures
        t.0 == progress.time_to_exploit_ms * progress.time_to_exploit_ms,
        t.1 == progress.time_to_exploit_ms * progress.time_to_exploit_ms + 19 * (
        progress.elapsed_ms * progress.elapsed_ms),
{
    let e = progress.elapsed_ms as u128;
    let d = progress.time_to_exploit_ms as u128;
    proof {
        assert(d * d + 19 * (e * e) < u128::MAX) by (nonlinear_arith)
            requires
                0 <= e < 0x2000000000000000,
                0 <= d < 0x2000000000000000,
        ;
    }
    (d * d, d * d + 19 * (e * e))
}

/// At progress zero every schedule starts fully directed: the linear factor
/// is exactly one.
pub proof fn lemma_cooling_linear_at_start(progress: Progress)
    requires
        progress.elapsed_ms == 0,
        progress.time_to_exploit_ms >= 1,
    ensures
        progress.time_to_exploit_ms as int == progress.time_to_exploit_ms + 19
            * progress.elapsed_ms,
{
}

/// At progress zero every schedule starts fully directed: the quadratic
/// factor is exactly one.
pub proof fn lemma_cooling_quadratic_at_start(progress: Progress)
    requires
        progress.elapsed_ms == 0,
        progress.time_to_exploit_ms >= 1,
    ensures
        progress.time_to_exploit_ms * progress.time_to_exploit_ms == progress.time_to_exploit_ms
            * progress.time_to_exploit_ms + 19 * (progress.elapsed_ms * progress.elapsed_ms),
{
}

/// The linear factor never grows as the campaign ages: later progress gives
/// an annealing factor at most as large, as rationals, and strictly smaller
/// whenever the deadline is nonzero.
pub proof fn lemma_cooling_linear_monotone(tte: u64, e1: u64, e2: u64)
    requires
        e1 <= e2,
    ensures
        (tte as int) * (tte + 19 * e1) <= (tte as int) * (tte + 19 * e2),
        (tte >= 1 && e1 < e2) ==> (tte as int) * (tte + 19 * e1) < (tte as int) * (tte + 19
            * e2),
{
    assert((tte as int) * (tte + 19 * e1) <= (tte as int) * (tte + 19 * e2)) by (nonlinear_arith)
        requires
            0 <= tte,
            0 <= e1 <= e2,
    ;
    if tte >= 1 && e1 < e2 {
        assert((tte as int) * (tte + 19 * e1) < (tte as int) * (tte + 19 * e2))
            by (nonlinear_arith)
            requires
                1 <= tte,
                0 <= e1 < e2,
        ;
    }
}

/// The quadratic factor never grows as the campaign ages: later progress
/// gives an annealing factor at most as large, as rationals, and strictly
/// smaller whenever the deadline is nonzero.
pub proof fn lemma_cooling_quadratic_monotone(tte: u64, e1: u64, e2: u64)
    requires
        e1 <= e2,
    ensures
        (tte * tte) * (tte * tte + 19 * (e1 * e1)) <= (tte * tte) * (tte * tte + 19 * (e2
            * e2)),
        (tte >= 1 && e1 < e2) ==> (tte * tte) * (tte * tte + 19 * (e1 * e1)) < (tte * tte) * (
        tte * tte + 19 * (e2 * e2)),
{
    assert((tte * tte) * (tte * tte + 19 * (e1 * e1)) <= (tte * tte) * (tte * tte + 19 * (e2
        * e2))) by (nonlinear_arith)
        requires
            0 <= tte,
            0 <= e1 <= e2,
    ;
    if tte >= 1 && e1 < e2 {
        assert((tte * tte) * (tte * tte + 19 * (e1 * e1)) < (tte * tte) * (tte * tte + 19 * (e2
            * e2))) by (nonlinear_arith)
            requires
                1 <= tte,
                0 <= e1 < e2,
        ;
    }
}

/// Past the exploitation deadline the quadratic schedule has decayed at
/// least as far as the linear one: `t_quad <= t_lin` as rationals.
pub proof fn lemma_cooling_quadratic_decays_faster(tte: u64, e: u64)
    requires
        e >= tte,
        tte >= 1,
    ensures
        (tte * tte) * ((tte + 19 * e) as int) <= (tte as int) * (tte * tte + 19 * (e * e)),
{
    assert((tte * tte) * ((tte + 19 * e) as int) <= (tte as int) * (tte * tte + 19 * (e * e)))
        by (nonlinear_arith)
        requires
            1 <= tte <= e,
    ;
}

} // verus!
