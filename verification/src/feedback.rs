//! Directed feedback decisions and the restart-durable range statistics.
//!
//! A feedback consumes the scalar one observer produced for one execution
//! and decides whether the execution is interesting with respect to all
//! history this process has seen. Acceptance is split in two phases: the
//! decision is made first, and only once the engine has durably inserted the
//! new corpus entry are the running statistics committed, so that executions
//! rejected for other reasons are never counted.

use vstd::prelude::*;

use crate::metric::{
    lemma_le_trans, normalize_value, spec_norm_fits, spec_norm_matches, MetricValue,
    NormalizedValue,
};

verus! {

/// The shape of the time-annealing curve that shifts the campaign from
/// directed exploration to undirected exploitation.
#[derive(Clone, Copy, Debug, PartialEq, Eq, Structural)]
pub enum CoolingSchedule {
    Exponential,
    Logarithmic,
    Linear,
    Quadratic,
}

/// A failure of the feedback protocol: the engine called a commit out of
/// order, or asked for a statistic that no acceptance has defined yet.
#[derive(Clone, Copy, Debug, PartialEq, Eq, Structural)]
pub enum FeedbackError {
    /// A commit was asked for, but no execution value is pending.
    ValueNotSet,
    /// The average relevance was asked for before any acceptance defined it.
    AverageNotSet,
    /// The exact running average can no longer be represented.
    AverageOverflow,
}

/// Elapsed campaign runtime against the configured exploitation deadline.
/// The quotient `elapsed_ms / time_to_exploit_ms` is the campaign's progress
/// and may exceed one once the deadline has passed.
#[derive(Clone, Copy, Debug, PartialEq, Eq, Structural)]
pub struct Progress {
    pub elapsed_ms: u64,
    pub time_to_exploit_ms: u64,
}

/// How a running lower bound tightens when one more value is accepted: a
/// finite value replaces the bound when it is strictly lower; a value
/// without signal never displaces a bound, but does seed an unset one.
pub open spec fn spec_updated_min(bound: Option<MetricValue>, cur: MetricValue) -> Option<
    MetricValue,
> {
    match bound {
        Option::None => Option::Some(cur),
        Option::Some(m) => if !cur.spec_is_finite() {
            Option::Some(m)
        } else if !m.spec_is_finite() && m.num == 0 {
            Option::Some(cur)
        } else if cur.spec_lt(m) {
            Option::Some(cur)
        } else {
            Option::Some(m)
        },
    }
}

/// How a running upper bound tightens when one more value is accepted.
pub open spec fn spec_updated_max(bound: Option<MetricValue>, cur: MetricValue) -> Option<
    MetricValue,
> {
    match bound {
        Option::None => Option::Some(cur),
        Option::Some(m) => if !cur.spec_is_finite() {
            Option::Some(m)
        } else if !m.spec_is_finite() && m.num == 0 {
            Option::Some(cur)
        } else if m.spec_lt(cur) {
            Option::Some(cur)
        } else {
            Option::Some(m)
        },
    }
}

/// Replace a running lower bound by `cur` where `cur` is strictly lower.
fn tighten_min(bound: Option<MetricValue>, cur: MetricValue) -> (r: Option<MetricValue>)
    ensures
        r == spec_updated_min(bound, cur),
{
    match bound {
        Option::None => Option::Some(cur),
        Option::Some(m) => if !cur.is_finite() {
            Option::Some(m)
        } else if !m.is_finite() && m.num == 0 {
            Option::Some(cur)
        } else if cur.lt(&m) {
            Option::Some(cur)
        } else {
            Option::Some(m)
        },
    }
}

/// Replace a running upper bound by `cur` where `cur` is strictly higher.
fn tighten_max(bound: Option<MetricValue>, cur: MetricValue) -> (r: Option<MetricValue>)
    ensures
        r == spec_updated_max(bound, cur),
{
    match bound {
        Option::None => Option::Some(cur),
        Option::Some(m) => if !cur.is_finite() {
            Option::Some(m)
        } else if !m.is_finite() && m.num == 0 {
            Option::Some(cur)
        } else if m.lt(&cur) {
            Option::Some(cur)
        } else {
            Option::Some(m)
        },
    }
}

/// Restart-durable statistics of the distance-directed strategy: the running
/// distance range over all accepted executions, the cooling schedule fixed
/// at campaign start, and the campaign timing.
#[derive(Clone, Copy, Debug)]
pub struct DistanceMetadata {
    schedule: Option<CoolingSchedule>,
    campaign_start_ms: u64,
    time_to_exploit_ms: u64,
    min_distance: Option<MetricValue>,
    max_distance: Option<MetricValue>,
}

impl DistanceMetadata {
    pub closed spec fn spec_schedule(self) -> Option<CoolingSchedule> {
        self.schedule
    }

    pub closed spec fn spec_campaign_start_ms(self) -> u64 {
        self.campaign_start_ms
    }

    pub closed spec fn spec_time_to_exploit_ms(self) -> u64 {
        self.time_to_exploit_ms
    }

    pub closed spec fn spec_min(self) -> Option<MetricValue> {
        self.min_distance
    }

    pub closed spec fn spec_max(self) -> Option<MetricValue> {
        self.max_distance
    }

    /// An execution is interesting when its distance carries a signal and is
    /// strictly lower than every distance accepted so far.
    pub open spec fn spec_is_interesting(self, cur: MetricValue) -> bool {
        &&& cur.spec_is_finite()
        &&& match self.spec_min() {
            Option::None => true,
            Option::Some(m) => cur.spec_lt(m),
        }
    }

    pub fn with_schedule(
        schedule: Option<CoolingSchedule>,
        time_to_exploit_ms: u64,
        now_ms: u64,
    ) -> (r: DistanceMetadata)
        ensures
            r.spec_schedule() == schedule,
            r.spec_campaign_start_ms() == now_ms,
            r.spec_time_to_exploit_ms() == time_to_exploit_ms,
            r.spec_min() is None,
            r.spec_max() is None,
    {
        DistanceMetadata {
            schedule,
            campaign_start_ms: now_ms,
            time_to_exploit_ms,
            min_distance: Option::None,
            max_distance: Option::None,
        }
    }

    /// Commit one accepted distance into the running range.
    pub fn update_range(&mut self, cur_distance: MetricValue)
        ensures
            final(self).spec_min() == spec_updated_min(old(self).spec_min(), cur_distance),
            final(self).spec_max() == spec_updated_max(old(self).spec_max(), cur_distance),
            final(self).spec_schedule() == old(self).spec_schedule(),
            final(self).spec_campaign_start_ms() == old(self).spec_campaign_start_ms(),
            final(self).spec_time_to_exploit_ms() == old(self).spec_time_to_exploit_ms(),
    {
        self.min_distance = tighten_min(self.min_distance, cur_distance);
        self.max_distance = tighten_max(self.max_distance, cur_distance);
    }

    /// Decide whether an execution's distance is interesting. The decision
    /// reads the statistics and never changes them.
    pub fn is_interesting(&self, cur_distance: MetricValue) -> (r: bool)
        ensures
            r == self.spec_is_interesting(cur_distance),
    {
        if !cur_distance.is_finite() {
            return false;
        }
        match self.min_distance {
            Option::None => true,
            Option::Some(m) => cur_distance.lt(&m),
        }
    }

    /// Normalize a distance into `[0, 1]` against the observed range, as
    /// the exact rational `(cur - min) / (max - min)`. Yields nothing while
    /// either bound is unset, when the range has no spread, when `cur`
    /// carries no signal, or when a magnitude no longer fits in 128 bits.
    pub fn normalize(&self, cur_distance: MetricValue) -> (r: Option<NormalizedValue>)
        ensures
            r is Some <==> ({
                &&& self.spec_min() is Some
                &&& self.spec_max() is Some
                &&& cur_distance.spec_is_finite()
                &&& !self.spec_min()->Some_0.spec_eq_value(self.spec_max()->Some_0)
                &&& spec_norm_fits(
                    cur_distance,
                    self.spec_min()->Some_0,
                    self.spec_max()->Some_0,
                )
            }),
            r matches Some(n) ==> n.spec_den() > 0 && spec_norm_matches(
                cur_distance,
                self.spec_min()->Some_0,
                self.spec_max()->Some_0,
                n,
            ),
    {
        match (self.min_distance, self.max_distance) {
            (Option::Some(mn), Option::Some(mx)) => normalize_value(cur_distance, mn, mx),
            _ => Option::None,
        }
    }

    pub fn schedule(&self) -> (r: Option<CoolingSchedule>)
        ensures
            r == self.spec_schedule(),
    {
        self.schedule
    }

    /// Elapsed runtime against the exploitation deadline, from an absolute
    /// campaign-start timestamp. The clock the engine supplies must not run
    /// backwards past the campaign start.
    pub fn progress_to_exploit(&self, now_ms: u64) -> (r: Progress)
        requires
            now_ms >= self.spec_campaign_start_ms(),
        ensures
            r.elapsed_ms == now_ms - self.spec_campaign_start_ms(),
            r.time_to_exploit_ms == self.spec_time_to_exploit_ms(),
    {
        Progress {
            elapsed_ms: now_ms - self.campaign_start_ms,
            time_to_exploit_ms: self.time_to_exploit_ms,
        }
    }

    pub fn campaign_start_ms(&self) -> (r: u64)
        ensures
            r == self.spec_campaign_start_ms(),
    {
        self.campaign_start_ms
    }

    pub fn time_to_exploit_ms(&self) -> (r: u64)
        ensures
            r == self.spec_time_to_exploit_ms(),
    {
        self.time_to_exploit_ms
    }

    /// Rebuild the statistics from their persisted parts, verbatim: the
    /// engine's restart mechanism restores exactly what was saved.
    pub fn restore(
        schedule: Option<CoolingSchedule>,
        campaign_start_ms: u64,
        time_to_exploit_ms: u64,
        min_distance: Option<MetricValue>,
        max_distance: Option<MetricValue>,
    ) -> (r: DistanceMetadata)
        ensures
            r.spec_schedule() == schedule,
            r.spec_campaign_start_ms() == campaign_start_ms,
            r.spec_time_to_exploit_ms() == time_to_exploit_ms,
            r.spec_min() == min_distance,
            r.spec_max() == max_distance,
    {
        DistanceMetadata { schedule, campaign_start_ms, time_to_exploit_ms, min_distance, max_distance }
    }

    pub fn min_distance(&self) -> (r: Option<MetricValue>)
        ensures
            r == self.spec_min(),
    {
        self.min_distance
    }

    pub fn max_distance(&self) -> (r: Option<MetricValue>)
        ensures
            r == self.spec_max(),
    {
        self.max_distance
    }
}

/// The scalar attached to a corpus entry when the distance feedback accepted
/// it; immutable for the entry's lifetime.
#[derive(Clone, Copy, Debug)]
pub struct DistanceTestcaseMetadata {
    distance: MetricValue,
}

impl DistanceTestcaseMetadata {
    pub closed spec fn spec_distance(self) -> MetricValue {
        self.distance
    }

    pub fn new(distance: MetricValue) -> (r: DistanceTestcaseMetadata)
        ensures
            r.spec_distance() == distance,
    {
        DistanceTestcaseMetadata { distance }
    }

    pub fn distance(&self) -> (r: MetricValue)
        ensures
            r == self.spec_distance(),
    {
        self.distance
    }
}

/// Restart-durable statistics of the similarity strategy: the running
/// similarity range over all accepted executions.
#[derive(Clone, Copy, Debug)]
pub struct SimilarityMetadata {
    min_similarity: Option<MetricValue>,
    max_similarity: Option<MetricValue>,
}

impl SimilarityMetadata {
    pub closed spec fn spec_min(self) -> Option<MetricValue> {
        self.min_similarity
    }

    pub closed spec fn spec_max(self) -> Option<MetricValue> {
        self.max_similarity
    }

    /// An execution is interesting when its similarity carries a signal and
    /// is strictly lower than every similarity accepted so far.
    pub open spec fn spec_is_interesting(self, cur: MetricValue) -> bool {
        &&& cur.spec_is_finite()
        &&& match self.spec_min() {
            Option::None => true,
            Option::Some(m) => cur.spec_lt(m),
        }
    }

    pub fn new() -> (r: SimilarityMetadata)
        ensures
            r.spec_min() is None,
            r.spec_max() is None,
    {
        SimilarityMetadata { min_similarity: Option::None, max_similarity: Option::None }
    }

    /// Commit one accepted similarity into the running range.
    pub fn update_range(&mut self, cur_similarity: MetricValue)
        ensures
            final(self).spec_min() == spec_updated_min(old(self).spec_min(), cur_similarity),
            final(self).spec_max() == spec_updated_max(old(self).spec_max(), cur_similarity),
    {
        self.min_similarity = tighten_min(self.min_similarity, cur_similarity);
        self.max_similarity = tighten_max(self.max_similarity, cur_similarity);
    }

    /// Decide whether an execution's similarity is interesting. The decision
    /// reads the statistics and never changes them.
    pub fn is_interesting(&self, cur_similarity: MetricValue) -> (r: bool)
        ensures
            r == self.spec_is_interesting(cur_similarity),
    {
        if !cur_similarity.is_finite() {
            return false;
        }
        match self.min_similarity {
            Option::None => true,
            Option::Some(m) => cur_similarity.lt(&m),
        }
    }

    /// Normalize a similarity into `[0, 1]` against the observed range, as
    /// the exact rational `(cur - min) / (max - min)`. Yields nothing while
    /// either bound is unset, when the range has no spread, when `cur`
    /// carries no signal, or when a magnitude no longer fits in 128 bits.
    pub fn normalize(&self, cur_similarity: MetricValue) -> (r: Option<NormalizedValue>)
        ensures
            r is Some <==> ({
                &&& self.spec_min() is Some
                &&& self.spec_max() is Some
                &&& cur_similarity.spec_is_finite()
                &&& !self.spec_min()->Some_0.spec_eq_value(self.spec_max()->Some_0)
                &&& spec_norm_fits(
                    cur_similarity,
                    self.spec_min()->Some_0,
                    self.spec_max()->Some_0,
                )
            }),
            r matches Some(n) ==> n.spec_den() > 0 && spec_norm_matches(
                cur_similarity,
                self.spec_min()->Some_0,
                self.spec_max()->Some_0,
                n,
            ),
    {
        match (self.min_similarity, self.max_similarity) {
            (Option::Some(mn), Option::Some(mx)) => normalize_value(cur_similarity, mn, mx),
            _ => Option::None,
        }
    }

    /// Rebuild the statistics from their persisted parts, verbatim: the
    /// engine's restart mechanism restores exactly what was saved.
    pub fn restore(
        min_similarity: Option<MetricValue>,
        max_similarity: Option<MetricValue>,
    ) -> (r: SimilarityMetadata)
        ensures
            r.spec_min() == min_similarity,
            r.spec_max() == max_similarity,
    {
        SimilarityMetadata { min_similarity, max_similarity }
    }

    pub fn min_similarity(&self) -> (r: Option<MetricValue>)
        ensures
            r == self.spec_min(),
    {
        self.min_similarity
    }

    pub fn max_similarity(&self) -> (r: Option<MetricValue>)
        ensures
            r == self.spec_max(),
    {
        self.max_similarity
    }
}

/// The scalar attached to a corpus entry when the similarity feedback
/// accepted it; immutable for the entry's lifetime.
#[derive(Clone, Copy, Debug)]
pub struct SimilarityTestcaseMetadata {
    similarity: MetricValue,
}

impl SimilarityTestcaseMetadata {
    pub closed spec fn spec_similarity(self) -> MetricValue {
        self.similarity
    }

    pub fn new(similarity: MetricValue) -> (r: SimilarityTestcaseMetadata)
        ensures
            r.spec_similarity() == similarity,
    {
        SimilarityTestcaseMetadata { similarity }
    }

    pub fn similarity(&self) -> (r: MetricValue)
        ensures
            r == self.spec_similarity(),
    {
        self.similarity
    }
}

/// An execution observer that yields a distance scalar once an execution
/// has been snapshotted.
pub trait DistanceObserver {
    spec fn spec_name(&self) -> Seq<char>;

    /// Whether a snapshot has been taken since the last reset.
    spec fn distance_ready(&self) -> bool;

    spec fn spec_distance(&self) -> MetricValue;

    fn name(&self) -> (r: &str)
        ensures
            r@ == self.spec_name(),
    ;

    fn distance(&self) -> (r: MetricValue)
        requires
            self.distance_ready(),
        ensures
            r == self.spec_distance(),
    ;
}

/// An execution observer that yields a similarity scalar once an execution
/// has been snapshotted.
pub trait SimilarityObserver {
    spec fn spec_name(&self) -> Seq<char>;

    /// Whether a snapshot has been taken since the last reset.
    spec fn similarity_ready(&self) -> bool;

    spec fn spec_similarity(&self) -> MetricValue;

    fn name(&self) -> (r: &str)
        ensures
            r@ == self.spec_name(),
    ;

    fn similarity(&self) -> (r: MetricValue)
        requires
            self.similarity_ready(),
        ensures
            r == self.spec_similarity(),
    ;
}

/// The distance-directed feedback: decides per execution, then commits the
/// accepted value to the durable statistics once the engine has inserted the
/// corpus entry.
#[derive(Clone, Debug)]
pub struct DistanceFeedback {
    name: String,
    distance: Option<MetricValue>,
    schedule: Option<CoolingSchedule>,
    time_to_exploit_ms: u64,
}

impl DistanceFeedback {
    /// The observer name this feedback is bound to.
    pub closed spec fn spec_name(self) -> Seq<char> {
        self.name@
    }

    /// The value observed for the current execution, pending a commit.
    pub closed spec fn spec_pending(self) -> Option<MetricValue> {
        self.distance
    }

    pub closed spec fn spec_schedule(self) -> Option<CoolingSchedule> {
        self.schedule
    }

    pub closed spec fn spec_time_to_exploit_ms(self) -> u64 {
        self.time_to_exploit_ms
    }

    pub fn new(
        name: String,
        schedule: Option<CoolingSchedule>,
        time_to_exploit_ms: u64,
    ) -> (r: DistanceFeedback)
        ensures
            r.spec_name() == name@,
            r.spec_pending() is None,
            r.spec_schedule() == schedule,
            r.spec_time_to_exploit_ms() == time_to_exploit_ms,
    {
        DistanceFeedback { name, distance: Option::None, schedule, time_to_exploit_ms }
    }

    pub fn with_observer<O: DistanceObserver>(
        observer: &O,
        schedule: Option<CoolingSchedule>,
        time_to_exploit_ms: u64,
    ) -> (r: DistanceFeedback)
        ensures
            r.spec_name() == observer.spec_name(),
            r.spec_pending() is None,
            r.spec_schedule() == schedule,
            r.spec_time_to_exploit_ms() == time_to_exploit_ms,
    {
        DistanceFeedback {
            name: observer.name().to_string(),
            distance: Option::None,
            schedule,
            time_to_exploit_ms,
        }
    }

    pub fn name(&self) -> (r: &str)
        ensures
            r@ == self.spec_name(),
    {
        self.name.as_str()
    }

    /// The statistics a fresh fuzzing state starts from, carrying this
    /// feedback's schedule and deadline and the campaign-start timestamp.
    pub fn init_metadata(&self, now_ms: u64) -> (r: DistanceMetadata)
        ensures
            r.spec_schedule() == self.spec_schedule(),
            r.spec_campaign_start_ms() == now_ms,
            r.spec_time_to_exploit_ms() == self.spec_time_to_exploit_ms(),
            r.spec_min() is None,
            r.spec_max() is None,
    {
        DistanceMetadata::with_schedule(self.schedule, self.time_to_exploit_ms, now_ms)
    }

    /// Decide whether this execution's distance is interesting. The observed
    /// value is retained for a later commit either way; the statistics are
    /// only read.
    pub fn is_interesting(&mut self, cur_distance: MetricValue, metadata: &DistanceMetadata) -> (r:
        bool)
        ensures
            r == metadata.spec_is_interesting(cur_distance),
            final(self).spec_pending() == Option::Some(cur_distance),
            final(self).spec_name() == old(self).spec_name(),
            final(self).spec_schedule() == old(self).spec_schedule(),
            final(self).spec_time_to_exploit_ms() == old(self).spec_time_to_exploit_ms(),
    {
        self.distance = Option::Some(cur_distance);
        metadata.is_interesting(cur_distance)
    }

    /// Commit the pending value: yield the metadata to attach to the newly
    /// inserted corpus entry and tighten the durable range. Fails, changing
    /// nothing, when no execution value is pending.
    pub fn append_metadata(&mut self, metadata: &mut DistanceMetadata) -> (r: Result<
        DistanceTestcaseMetadata,
        FeedbackError,
    >)
        ensures
            old(self).spec_pending() is None ==> {
                &&& r == Err::<DistanceTestcaseMetadata, FeedbackError>(FeedbackError::ValueNotSet)
                &&& *final(self) == *old(self)
                &&& *final(metadata) == *old(metadata)
            },
            old(self).spec_pending() matches Some(d) ==> {
                &&& r is Ok
                &&& r->Ok_0.spec_distance() == d
                &&& final(metadata).spec_min() == spec_updated_min(old(metadata).spec_min(), d)
                &&& final(metadata).spec_max() == spec_updated_max(old(metadata).spec_max(), d)
                &&& final(metadata).spec_schedule() == old(metadata).spec_schedule()
                &&& final(metadata).spec_campaign_start_ms() == old(
                    metadata,
                ).spec_campaign_start_ms()
                &&& final(metadata).spec_time_to_exploit_ms() == old(
                    metadata,
                ).spec_time_to_exploit_ms()
                &&& final(self).spec_pending() is None
            },
            final(self).spec_name() == old(self).spec_name(),
            final(self).spec_schedule() == old(self).spec_schedule(),
            final(self).spec_time_to_exploit_ms() == old(self).spec_time_to_exploit_ms(),
    {
        let cur_distance = match self.distance {
            Option::Some(d) => d,
            Option::None => {
                return Result::Err(FeedbackError::ValueNotSet);
            },
        };
        metadata.update_range(cur_distance);
        self.distance = Option::None;
        Result::Ok(DistanceTestcaseMetadata::new(cur_distance))
    }

    /// Drop the pending value of an execution the engine did not keep,
    /// without committing anything.
    pub fn discard_metadata(&mut self)
        ensures
            final(self).spec_pending() is None,
            final(self).spec_name() == old(self).spec_name(),
            final(self).spec_schedule() == old(self).spec_schedule(),
            final(self).spec_time_to_exploit_ms() == old(self).spec_time_to_exploit_ms(),
    {
        self.distance = Option::None;
    }
}

/// The similarity feedback: the same two-phase decide-then-commit protocol,
/// over the similarity range statistics.
#[derive(Clone, Debug)]
pub struct SimilarityFeedback {
    name: String,
    similarity: Option<MetricValue>,
}

impl SimilarityFeedback {
    /// The observer name this feedback is bound to.
    pub closed spec fn spec_name(self) -> Seq<char> {
        self.name@
    }

    /// The value observed for the current execution, pending a commit.
    pub closed spec fn spec_pending(self) -> Option<MetricValue> {
        self.similarity
    }

    pub fn new(name: String) -> (r: SimilarityFeedback)
        ensures
            r.spec_name() == name@,
            r.spec_pending() is None,
    {
        SimilarityFeedback { name, similarity: Option::None }
    }

    pub fn with_observer<O: SimilarityObserver>(observer: &O) -> (r: SimilarityFeedback)
        ensures
            r.spec_name() == observer.spec_name(),
            r.spec_pending() is None,
    {
        SimilarityFeedback { name: observer.name().to_string(), similarity: Option::None }
    }

    pub fn name(&self) -> (r: &str)
        ensures
            r@ == self.spec_name(),
    {
        self.name.as_str()
    }

    /// Decide whether this execution's similarity is interesting. The
    /// observed value is retained for a later commit either way; the
    /// statistics are only read.
    pub fn is_interesting(
        &mut self,
        cur_similarity: MetricValue,
        metadata: &SimilarityMetadata,
    ) -> (r: bool)
        ensures
            r == metadata.spec_is_interesting(cur_similarity),
            final(self).spec_pending() == Option::Some(cur_similarity),
            final(self).spec_name() == old(self).spec_name(),
    {
        self.similarity = Option::Some(cur_similarity);
        metadata.is_interesting(cur_similarity)
    }

    /// Commit the pending value: yield the metadata to attach to the newly
    /// inserted corpus entry and tighten the durable range. Fails, changing
    /// nothing, when no execution value is pending.
    pub fn append_metadata(&mut self, metadata: &mut SimilarityMetadata) -> (r: Result<
        SimilarityTestcaseMetadata,
        FeedbackError,
    >)
        ensures
            old(self).spec_pending() is None ==> {
                &&& r == Err::<SimilarityTestcaseMetadata, FeedbackError>(
                    FeedbackError::ValueNotSet,
                )
                &&& *final(self) == *old(self)
                &&& *final(metadata) == *old(metadata)
            },
            old(self).spec_pending() matches Some(v) ==> {
                &&& r is Ok
                &&& r->Ok_0.spec_similarity() == v
                &&& final(metadata).spec_min() == spec_updated_min(old(metadata).spec_min(), v)
                &&& final(metadata).spec_max() == spec_updated_max(old(metadata).spec_max(), v)
                &&& final(self).spec_pending() is None
            },
            final(self).spec_name() == old(self).spec_name(),
    {
        let cur_similarity = match self.similarity {
            Option::Some(v) => v,
            Option::None => {
                return Result::Err(FeedbackError::ValueNotSet);
            },
        };
        metadata.update_range(cur_similarity);
        self.similarity = Option::None;
        Result::Ok(SimilarityTestcaseMetadata::new(cur_similarity))
    }

    /// Drop the pending value of an execution the engine did not keep,
    /// without committing anything.
    pub fn discard_metadata(&mut self)
        ensures
            final(self).spec_pending() is None,
            final(self).spec_name() == old(self).spec_name(),
    {
        self.similarity = Option::None;
    }
}

/// The running lower bound after a whole sequence of committed values.
pub open spec fn spec_min_after(bound: Option<MetricValue>, values: Seq<MetricValue>) -> Option<
    MetricValue,
>
    decreases values.len(),
{
    if values.len() == 0 {
        bound
    } else {
        spec_updated_min(spec_min_after(bound, values.drop_last()), values.last())
    }
}

/// The running upper bound after a whole sequence of committed values.
pub open spec fn spec_max_after(bound: Option<MetricValue>, values: Seq<MetricValue>) -> Option<
    MetricValue,
>
    decreases values.len(),
{
    if values.len() == 0 {
        bound
    } else {
        spec_updated_max(spec_max_after(bound, values.drop_last()), values.last())
    }
}

/// The running minimum only ever decreases: across any sequence of accepted
/// (hence finite) values, the bound that comes out is at most the bound
/// that went in.
pub proof fn lemma_min_never_rises(start: MetricValue, values: Seq<MetricValue>)
    requires
        start.spec_is_finite(),
        forall|i: int| 0 <= i < values.len() ==> (#[trigger] values[i]).spec_is_finite(),
    ensures
        spec_min_after(Option::Some(start), values) matches Some(m) && m.spec_is_finite()
            && m.spec_le(start),
    decreases values.len(),
{
    if values.len() > 0 {
        assert(forall|i: int|
            0 <= i < values.drop_last().len() ==> (#[trigger] values.drop_last()[i])
                == values[i]);
        lemma_min_never_rises(start, values.drop_last());
        let m = spec_min_after(Option::Some(start), values.drop_last())->Some_0;
        let v = values.last();
        if v.spec_lt(m) {
            lemma_le_trans(v, m, start);
        }
    }
}

/// The running maximum only ever increases: across any sequence of accepted
/// (hence finite) values, the bound that comes out is at least the bound
/// that went in.
pub proof fn lemma_max_never_falls(start: MetricValue, values: Seq<MetricValue>)
    requires
        start.spec_is_finite(),
        forall|i: int| 0 <= i < values.len() ==> (#[trigger] values[i]).spec_is_finite(),
    ensures
        spec_max_after(Option::Some(start), values) matches Some(m) && m.spec_is_finite()
            && start.spec_le(m),
    decreases values.len(),
{
    if values.len() > 0 {
        assert(forall|i: int|
            0 <= i < values.drop_last().len() ==> (#[trigger] values.drop_last()[i])
                == values[i]);
        lemma_max_never_falls(start, values.drop_last());
        let m = spec_max_after(Option::Some(start), values.drop_last())->Some_0;
        let v = values.last();
        if m.spec_lt(v) {
            lemma_le_trans(start, m, v);
        }
    }
}

/// The distance range after one whole execution under the two-phase
/// protocol: the statistics are committed exactly when the decision
/// accepted the value.
pub open spec fn spec_bounds_after_execution(meta: DistanceMetadata, cur: MetricValue) -> (
    Option<MetricValue>,
    Option<MetricValue>,
) {
    if meta.spec_is_interesting(cur) {
        (spec_updated_min(meta.spec_min(), cur), spec_updated_max(meta.spec_max(), cur))
    } else {
        (meta.spec_min(), meta.spec_max())
    }
}

/// A rejected execution never changes the statistics: the decision reads
/// them, and no commit follows a rejection.
pub proof fn lemma_rejected_execution_changes_nothing(meta: DistanceMetadata, cur: MetricValue)
    requires
        !meta.spec_is_interesting(cur),
    ensures
        spec_bounds_after_execution(meta, cur) == (meta.spec_min(), meta.spec_max()),
{
}

/// A committed value that carries a signal lies inside the tightened range:
/// the new minimum is at most the value and the new maximum at least it, as
/// rationals.
pub proof fn lemma_committed_value_inside_range(
    min_bound: Option<MetricValue>,
    max_bound: Option<MetricValue>,
    cur: MetricValue,
)
    requires
        cur.spec_is_finite(),
    ensures
        spec_updated_min(min_bound, cur) matches Some(m) && m.spec_le(cur),
        spec_updated_max(max_bound, cur) matches Some(m) && cur.spec_le(m),
{
}

} // verus!
