//! Basic-block relevance collection and the relevance-directed strategy.
//!
//! The relevance of one execution is the plain sum of the weighted
//! target-adjacent basic-block counts the instrumentation reported; there is
//! no sample count and no mean. The directed strategy built on it keeps a
//! running minimum, maximum and average of the accepted executions'
//! relevance, and weighs corpus entries by their relevance relative to that
//! average.

use vstd::prelude::*;

use crate::average::{spec_avg_step_den, spec_avg_step_num, spec_ratio_eq, RunningAverage};
use crate::feedback::FeedbackError;
use crate::window::{lemma_sample_sum_push, sample_sum};

verus! {

/// Running relevance accumulator for one execution.
pub struct DAFLStats {
    relevance_sum: u64,
    samples: Ghost<Seq<u64>>,
}

impl DAFLStats {
    /// The samples added since the last reset, in call order.
    pub closed spec fn samples(self) -> Seq<u64> {
        self.samples@
    }

    /// The counter agrees with the recorded window.
    pub closed spec fn wf(self) -> bool {
        self.relevance_sum == sample_sum(self.samples@)
    }

    pub fn new() -> (r: DAFLStats)
        ensures
            r.wf(),
            r.samples() == Seq::<u64>::empty(),
    {
        DAFLStats { relevance_sum: 0, samples: Ghost(Seq::empty()) }
    }

    /// Record one weighted basic-block relevance sample.
    pub fn add_bb_relevance(&mut self, bb_relevance: u64)
        requires
            old(self).wf(),
            sample_sum(old(self).samples()) + bb_relevance <= u64::MAX,
        ensures
            final(self).wf(),
            final(self).samples() == old(self).samples().push(bb_relevance),
    {
        proof {
            lemma_sample_sum_push(self.samples@, bb_relevance);
        }
        self.relevance_sum = self.relevance_sum + bb_relevance;
        self.samples = Ghost(self.samples@.push(bb_relevance));
    }

    /// The sum of the window's samples; zero means the execution touched no
    /// target-adjacent block.
    pub fn compute_test_case_relevance(&self) -> (r: u64)
        requires
            self.wf(),
        ensures
            r == sample_sum(self.samples()),
    {
        self.relevance_sum
    }

    /// Forget the current window.
    pub fn reset(&mut self)
        ensures
            final(self).wf(),
            final(self).samples() == Seq::<u64>::empty(),
    {
        self.relevance_sum = 0;
        self.samples = Ghost(Seq::empty());
    }
}

/// An execution observer that yields a relevance sum once an execution has
/// been snapshotted.
pub trait DAFLObserver {
    spec fn spec_name(&self) -> Seq<char>;

    /// Whether a snapshot has been taken since the last reset.
    spec fn relevance_ready(&self) -> bool;

    spec fn spec_relevance(&self) -> u64;

    fn name(&self) -> (r: &str)
        ensures
            r@ == self.spec_name(),
    ;

    fn relevance(&self) -> (r: u64)
        requires
            self.relevance_ready(),
        ensures
            r == self.spec_relevance(),
    ;
}

/// Wraps the relevance collector into the execution lifecycle: reset before
/// a run, snapshot the computed sum after a run. A pure adapter with no
/// decision logic.
#[derive(Clone, Debug)]
pub struct InProcessDAFLObserver {
    name: String,
    relevance: Option<u64>,
}

impl InProcessDAFLObserver {
    pub closed spec fn spec_cached(self) -> Option<u64> {
        self.relevance
    }

    pub fn new(name: String) -> (r: InProcessDAFLObserver)
        ensures
            r.spec_name() == name@,
            r.spec_cached() is None,
    {
        InProcessDAFLObserver { name, relevance: Option::None }
    }

    /// Clear the collector and the cached sum before an execution.
    pub fn pre_exec(&mut self, stats: &mut DAFLStats)
        ensures
            final(stats).wf(),
            final(stats).samples() == Seq::<u64>::empty(),
            final(self).spec_cached() is None,
            final(self).spec_name() == old(self).spec_name(),
    {
        stats.reset();
        self.relevance = Option::None;
    }

    /// The snapshotted sum, if an execution has been snapshotted since the
    /// last reset.
    pub fn cached(&self) -> (r: Option<u64>)
        ensures
            r == self.spec_cached(),
    {
        self.relevance
    }

    /// Snapshot the collector's sum after an execution.
    pub fn post_exec(&mut self, stats: &DAFLStats)
        requires
            stats.wf(),
        ensures
            final(self).spec_cached() matches Some(v) && v == sample_sum(stats.samples()),
            final(self).spec_name() == old(self).spec_name(),
    {
        self.relevance = Option::Some(stats.compute_test_case_relevance());
    }
}

impl DAFLObserver for InProcessDAFLObserver {
    closed spec fn spec_name(&self) -> Seq<char> {
        self.name@
    }

    open spec fn relevance_ready(&self) -> bool {
        self.spec_cached() is Some
    }

    open spec fn spec_relevance(&self) -> u64 {
        self.spec_cached()->Some_0
    }

    fn name(&self) -> (r: &str) {
        self.name.as_str()
    }

    /// The snapshotted sum; asking before any snapshot is a wiring error.
    fn relevance(&self) -> (r: u64) {
        match self.relevance {
            Option::Some(v) => v,
            Option::None => unreached(),
        }
    }
}

/// How a running relevance bound tightens when one more value is accepted.
pub open spec fn spec_updated_min_relevance(bound: Option<u64>, cur: u64) -> Option<u64> {
    match bound {
        Option::None => Option::Some(cur),
        Option::Some(m) => Option::Some(if cur < m { cur } else { m }),
    }
}

/// How a running relevance bound tightens when one more value is accepted.
pub open spec fn spec_updated_max_relevance(bound: Option<u64>, cur: u64) -> Option<u64> {
    match bound {
        Option::None => Option::Some(cur),
        Option::Some(m) => Option::Some(if cur > m { cur } else { m }),
    }
}

/// Restart-durable statistics of the relevance strategy: the running
/// minimum, maximum and exact online average over all accepted executions'
/// relevance.
#[derive(Clone, Copy, Debug)]
pub struct DAFLMetadata {
    avg_relevance: Option<RunningAverage>,
    min_relevance: Option<u64>,
    max_relevance: Option<u64>,
}

impl DAFLMetadata {
    pub closed spec fn spec_avg(self) -> Option<RunningAverage> {
        self.avg_relevance
    }

    pub closed spec fn spec_min(self) -> Option<u64> {
        self.min_relevance
    }

    pub closed spec fn spec_max(self) -> Option<u64> {
        self.max_relevance
    }

    pub open spec fn wf(self) -> bool {
        match self.spec_avg() {
            Option::None => true,
            Option::Some(a) => a.wf(),
        }
    }

    /// An execution is interesting when its relevance is nonzero and
    /// strictly greater than the lowest relevance accepted so far.
    pub open spec fn spec_is_interesting(self, cur: u64) -> bool {
        &&& cur != 0
        &&& match self.spec_min() {
            Option::None => true,
            Option::Some(m) => cur > m,
        }
    }

    pub fn new() -> (r: DAFLMetadata)
        ensures
            r.wf(),
            r.spec_avg() is None,
            r.spec_min() is None,
            r.spec_max() is None,
    {
        DAFLMetadata {
            avg_relevance: Option::None,
            min_relevance: Option::None,
            max_relevance: Option::None,
        }
    }

    /// Decide whether an execution's relevance is interesting. The decision
    /// reads the statistics and never changes them.
    pub fn is_interesting(&self, cur_relevance: u64) -> (r: bool)
        ensures
            r == self.spec_is_interesting(cur_relevance),
    {
        if cur_relevance == 0 {
            return false;
        }
        match self.min_relevance {
            Option::None => true,
            Option::Some(m) => cur_relevance > m,
        }
    }

    /// Rebuild the statistics from their persisted parts, verbatim: the
    /// engine's restart mechanism restores exactly what was saved.
    pub fn restore(
        avg_relevance: Option<RunningAverage>,
        min_relevance: Option<u64>,
        max_relevance: Option<u64>,
    ) -> (r: DAFLMetadata)
        requires
            avg_relevance matches Some(a) ==> a.wf(),
        ensures
            r.wf(),
            r.spec_avg() == avg_relevance,
            r.spec_min() == min_relevance,
            r.spec_max() == max_relevance,
    {
        DAFLMetadata { avg_relevance, min_relevance, max_relevance }
    }

    pub fn min_relevance(&self) -> (r: Option<u64>)
        ensures
            r == self.spec_min(),
    {
        self.min_relevance
    }

    pub fn max_relevance(&self) -> (r: Option<u64>)
        ensures
            r == self.spec_max(),
    {
        self.max_relevance
    }

    pub fn avg_relevance(&self) -> (r: Option<RunningAverage>)
        ensures
            r == self.spec_avg(),
    {
        self.avg_relevance
    }

    /// Commit one accepted relevance: tighten the running bounds and move
    /// the online average toward it, with the corpus size after the
    /// insertion as the sample count. Fails, changing nothing, in the
    /// unlikely case that the exact average can no longer be represented.
    pub fn update(&mut self, cur: u64, qlen: usize) -> (r: Result<(), FeedbackError>)
        requires
            old(self).wf(),
            qlen >= 1,
        ensures
            final(self).wf(),
            ({
                match old(self).spec_avg() {
                    Option::None => {
                        &&& r is Ok
                        &&& final(self).spec_avg() matches Some(a) && a.spec_num() == cur
                            && a.spec_den() == 1
                    },
                    Option::Some(a0) => {
                        let sn = spec_avg_step_num(
                            a0.spec_num(),
                            a0.spec_den(),
                            cur as int,
                            qlen as int,
                        );
                        let sd = spec_avg_step_den(a0.spec_den(), qlen as int);
                        if sn <= u128::MAX && sd <= u128::MAX {
                            &&& r is Ok
                            &&& final(self).spec_avg() matches Some(a) && spec_ratio_eq(
                                a.spec_num(),
                                a.spec_den(),
                                sn,
                                sd,
                            ) && a.spec_num() <= sn && a.spec_den() <= sd
                        } else {
                            r == Err::<(), FeedbackError>(FeedbackError::AverageOverflow)
                        }
                    },
                }
            }),
            r is Ok ==> final(self).spec_min() == spec_updated_min_relevance(
                old(self).spec_min(),
                cur,
            ),
            r is Ok ==> final(self).spec_max() == spec_updated_max_relevance(
                old(self).spec_max(),
                cur,
            ),
            r is Err ==> *final(self) == *old(self),
    {
        match self.avg_relevance {
            Option::None => {
                self.avg_relevance = Option::Some(RunningAverage::first(cur));
            },
            Option::Some(a) => {
                let mut updated = a;
                match updated.update(cur, qlen as u64) {
                    Result::Ok(()) => {
                        self.avg_relevance = Option::Some(updated);
                    },
                    Result::Err(e) => {
                        return Result::Err(e);
                    },
                }
            },
        }
        self.min_relevance = Option::Some(
            match self.min_relevance {
                Option::None => cur,
                Option::Some(m) => if cur < m {
                    cur
                } else {
                    m
                },
            },
        );
        self.max_relevance = Option::Some(
            match self.max_relevance {
                Option::None => cur,
                Option::Some(m) => if cur > m {
                    cur
                } else {
                    m
                },
            },
        );
        Result::Ok(())
    }
}

/// The relevance attached to a corpus entry when the relevance feedback
/// accepted it; immutable for the entry's lifetime.
#[derive(Clone, Copy, Debug)]
pub struct DAFLTestcaseMetadata {
    relevance: u64,
}

impl DAFLTestcaseMetadata {
    pub closed spec fn spec_relevance(self) -> u64 {
        self.relevance
    }

    pub fn new(relevance: u64) -> (r: DAFLTestcaseMetadata)
        ensures
            r.spec_relevance() == relevance,
    {
        DAFLTestcaseMetadata { relevance }
    }

    pub fn relevance(&self) -> (r: u64)
        ensures
            r == self.spec_relevance(),
    {
        self.relevance
    }
}

/// The relevance-directed feedback: the two-phase decide-then-commit
/// protocol over the relevance statistics.
#[derive(Clone, Debug)]
pub struct DAFLFeedback {
    name: String,
    relevance: Option<u64>,
}

impl DAFLFeedback {
    /// The observer name this feedback is bound to.
    pub closed spec fn spec_name(self) -> Seq<char> {
        self.name@
    }

    /// The value observed for the current execution, pending a commit.
    pub closed spec fn spec_pending(self) -> Option<u64> {
        self.relevance
    }

    pub fn new(name: String) -> (r: DAFLFeedback)
        ensures
            r.spec_name() == name@,
            r.spec_pending() is None,
    {
        DAFLFeedback { name, relevance: Option::None }
    }

    pub fn with_observer<O: DAFLObserver>(observer: &O) -> (r: DAFLFeedback)
        ensures
            r.spec_name() == observer.spec_name(),
            r.spec_pending() is None,
    {
        DAFLFeedback { name: observer.name().to_string(), relevance: Option::None }
    }

    pub fn name(&self) -> (r: &str)
        ensures
            r@ == self.spec_name(),
    {
        self.name.as_str()
    }

    /// Decide whether this execution's relevance is interesting. The
    /// observed value is retained for a later commit either way; the
    /// statistics are only read.
    pub fn is_interesting(&mut self, cur_relevance: u64, metadata: &DAFLMetadata) -> (r: bool)
        ensures
            r == metadata.spec_is_interesting(cur_relevance),
            final(self).spec_pending() == Option::Some(cur_relevance),
            final(self).spec_name() == old(self).spec_name(),
    {
        self.relevance = Option::Some(cur_relevance);
        metadata.is_interesting(cur_relevance)
    }

    /// Commit the pending value: yield the metadata to attach to the newly
    /// inserted corpus entry and fold the value into the durable statistics,
    /// with `qlen` the corpus size after the insertion. Fails, changing
    /// nothing, when no execution value is pending or the exact average can
    /// no longer be represented.
    pub fn append_metadata(&mut self, metadata: &mut DAFLMetadata, qlen: usize) -> (r: Result<
        DAFLTestcaseMetadata,
        FeedbackError,
    >)
        requires
            old(metadata).wf(),
            qlen >= 1,
        ensures
            final(metadata).wf(),
            final(self).spec_name() == old(self).spec_name(),
            old(self).spec_pending() is None ==> {
                &&& r == Err::<DAFLTestcaseMetadata, FeedbackError>(FeedbackError::ValueNotSet)
                &&& *final(self) == *old(self)
                &&& *final(metadata) == *old(metadata)
            },
            old(self).spec_pending() matches Some(v) ==> {
                &&& r is Ok ==> {
                    &&& r->Ok_0.spec_relevance() == v
                    &&& final(self).spec_pending() is None
                    &&& final(metadata).spec_min() == spec_updated_min_relevance(
                        old(metadata).spec_min(),
                        v,
                    )
                    &&& final(metadata).spec_max() == spec_updated_max_relevance(
                        old(metadata).spec_max(),
                        v,
                    )
                    &&& (old(metadata).spec_avg() is None ==> (final(metadata).spec_avg()
                        matches Some(a) && a.spec_num() == v && a.spec_den() == 1))
                    &&& (old(metadata).spec_avg() matches Some(a0)
                        ==> (final(metadata).spec_avg() matches Some(a) && spec_ratio_eq(
                        a.spec_num(),
                        a.spec_den(),
                        spec_avg_step_num(a0.spec_num(), a0.spec_den(), v as int, qlen as int),
                        spec_avg_step_den(a0.spec_den(), qlen as int),
                    ) && a.spec_num() <= spec_avg_step_num(
                        a0.spec_num(),
                        a0.spec_den(),
                        v as int,
                        qlen as int,
                    ) && a.spec_den() <= spec_avg_step_den(a0.spec_den(), qlen as int)))
                }
                &&& r is Err ==> {
                    &&& r == Err::<DAFLTestcaseMetadata, FeedbackError>(
                        FeedbackError::AverageOverflow,
                    )
                    &&& *final(metadata) == *old(metadata)
                    &&& final(self).spec_pending() == old(self).spec_pending()
                }
            },
            old(self).spec_pending() matches Some(v) ==> ((old(metadata).spec_avg() is None || ({
                let a0 = old(metadata).spec_avg()->Some_0;
                &&& spec_avg_step_num(a0.spec_num(), a0.spec_den(), v as int, qlen as int)
                    <= u128::MAX
                &&& spec_avg_step_den(a0.spec_den(), qlen as int) <= u128::MAX
            })) ==> r is Ok),
    {
        let cur = match self.relevance {
            Option::Some(v) => v,
            Option::None => {
                return Result::Err(FeedbackError::ValueNotSet);
            },
        };
        match metadata.update(cur, qlen) {
            Result::Ok(()) => {},
            Result::Err(e) => {
                return Result::Err(e);
            },
        }
        self.relevance = Option::None;
        Result::Ok(DAFLTestcaseMetadata::new(cur))
    }

    /// Drop the pending value of an execution the engine did not keep,
    /// without committing anything.
    pub fn discard_metadata(&mut self)
        ensures
            final(self).spec_pending() is None,
            final(self).spec_name() == old(self).spec_name(),
    {
        self.relevance = Option::None;
    }
}

/// Weighted selection, relevance variant: an entry's selection weight is its
/// attached relevance itself, with no cooling curve and no normalization.
pub struct DAFLWeightTestcaseScore;

impl DAFLWeightTestcaseScore {
    pub fn compute(entry: &DAFLTestcaseMetadata) -> (r: u64)
        ensures
            r == entry.spec_relevance(),
    {
        entry.relevance()
    }
}

/// Power scoring, relevance variant: the baseline power score is multiplied
/// by `relevance / average_relevance`, so entries above the running mean get
/// more budget and entries below it less. Asking before any acceptance has
/// defined the average is a caller-ordering error.
pub struct DAFLPowerTestcaseScore;

impl DAFLPowerTestcaseScore {
    /// The factor to apply to the baseline: the entry's relevance over the
    /// current average, as an exact rational
    /// `relevance * average_den / average_num`.
    pub fn compute(entry: &DAFLTestcaseMetadata, metadata: &DAFLMetadata) -> (r: Result<
        (u64, RunningAverage),
        FeedbackError,
    >)
        ensures
            metadata.spec_avg() is None ==> r == Err::<(u64, RunningAverage), FeedbackError>(
                FeedbackError::AverageNotSet,
            ),
            metadata.spec_avg() matches Some(a) ==> r == Ok::<(u64, RunningAverage), FeedbackError>(
                (entry.spec_relevance(), a),
            ),
    {
        match metadata.avg_relevance() {
            Option::None => Result::Err(FeedbackError::AverageNotSet),
            Option::Some(a) => Result::Ok((entry.relevance(), a)),
        }
    }
}

/// The relevance bounds after a whole sequence of committed values.
pub open spec fn spec_min_relevance_after(bound: Option<u64>, values: Seq<u64>) -> Option<u64>
    decreases values.len(),
{
    if values.len() == 0 {
        bound
    } else {
        spec_updated_min_relevance(spec_min_relevance_after(bound, values.drop_last()), values.last())
    }
}

/// The relevance bounds after a whole sequence of committed values.
pub open spec fn spec_max_relevance_after(bound: Option<u64>, values: Seq<u64>) -> Option<u64>
    decreases values.len(),
{
    if values.len() == 0 {
        bound
    } else {
        spec_updated_max_relevance(spec_max_relevance_after(bound, values.drop_last()), values.last())
    }
}

/// The running relevance minimum only ever decreases across any sequence of
/// accepted values.
pub proof fn lemma_min_relevance_never_rises(start: u64, values: Seq<u64>)
    ensures
        spec_min_relevance_after(Option::Some(start), values) matches Some(m) && m <= start,
    decreases values.len(),
{
    if values.len() > 0 {
        lemma_min_relevance_never_rises(start, values.drop_last());
    }
}

/// The running relevance maximum only ever increases across any sequence of
/// accepted values.
pub proof fn lemma_max_relevance_never_falls(start: u64, values: Seq<u64>)
    ensures
        spec_max_relevance_after(Option::Some(start), values) matches Some(m) && m >= start,
    decreases values.len(),
{
    if values.len() > 0 {
        lemma_max_relevance_never_falls(start, values.drop_last());
    }
}

/// The running average as a plain rational pair.
pub open spec fn spec_avg_pair(meta: DAFLMetadata) -> Option<(int, int)> {
    match meta.spec_avg() {
        Option::None => Option::None,
        Option::Some(a) => Option::Some((a.spec_num(), a.spec_den())),
    }
}

/// The relevance statistics after one whole execution under the two-phase
/// protocol, as (average, minimum, maximum): they are committed exactly
/// when the decision accepted the value, with `qlen` the corpus size after
/// the insertion.
pub open spec fn spec_relevance_stats_after_execution(
    meta: DAFLMetadata,
    cur: u64,
    qlen: int,
) -> (Option<(int, int)>, Option<u64>, Option<u64>) {
    if meta.spec_is_interesting(cur) {
        (
            match spec_avg_pair(meta) {
                Option::None => Option::Some((cur as int, 1int)),
                Option::Some((num, den)) => Option::Some(
                    (
                        spec_avg_step_num(num, den, cur as int, qlen),
                        spec_avg_step_den(den, qlen),
                    ),
                ),
            },
            spec_updated_min_relevance(meta.spec_min(), cur),
            spec_updated_max_relevance(meta.spec_max(), cur),
        )
    } else {
        (spec_avg_pair(meta), meta.spec_min(), meta.spec_max())
    }
}

/// A rejected execution never changes the statistics: the decision reads
/// them, and no commit follows a rejection, so the average is untouched as
/// well as both bounds.
pub proof fn lemma_rejected_relevance_changes_nothing(meta: DAFLMetadata, cur: u64, qlen: int)
    requires
        !meta.spec_is_interesting(cur),
    ensures
        spec_relevance_stats_after_execution(meta, cur, qlen) == (
            spec_avg_pair(meta),
            meta.spec_min(),
            meta.spec_max(),
        ),
{
}

/// A committed relevance lies inside the tightened bounds: the new
/// minimum is at most the value and the new maximum at least it.
pub proof fn lemma_committed_relevance_inside_bounds(
    min_bound: Option<u64>,
    max_bound: Option<u64>,
    cur: u64,
)
    ensures
        spec_updated_min_relevance(min_bound, cur) matches Some(m) && m <= cur,
        spec_updated_max_relevance(max_bound, cur) matches Some(m) && m >= cur,
{
}

} // verus!
