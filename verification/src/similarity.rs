//! Function-similarity collection.
//!
//! Each instrumentation sample is the reciprocal of an inter-procedural
//! function distance, pre-scaled by 1000 and truncated to an integer before
//! it reaches the collector. The execution's similarity is the mean of those
//! reciprocals (a harmonic-style quantity), not the reciprocal of a mean.

use vstd::prelude::*;

use crate::feedback::SimilarityObserver;
use crate::metric::MetricValue;
use crate::window::{lemma_sample_sum_push, sample_sum};

verus! {

/// Running similarity accumulator for one execution.
pub struct SimilarityStats {
    similarity_inc_sum: u64,
    similarity_inc_count: u64,
    samples: Ghost<Seq<u64>>,
}

impl SimilarityStats {
    /// The samples added since the last reset, in call order.
    pub closed spec fn samples(self) -> Seq<u64> {
        self.samples@
    }

    /// The counters agree with the recorded window.
    pub closed spec fn wf(self) -> bool {
        &&& self.similarity_inc_sum == sample_sum(self.samples@)
        &&& self.similarity_inc_count == self.samples@.len()
    }

    pub fn new() -> (r: SimilarityStats)
        ensures
            r.wf(),
            r.samples() == Seq::<u64>::empty(),
    {
        SimilarityStats {
            similarity_inc_sum: 0,
            similarity_inc_count: 0,
            samples: Ghost(Seq::empty()),
        }
    }

    /// Record one scaled reciprocal function distance.
    pub fn add_similarity_increment(&mut self, similarity_inc: u64)
        requires
            old(self).wf(),
            sample_sum(old(self).samples()) + similarity_inc <= u64::MAX,
            old(self).samples().len() + 1 <= u64::MAX,
        ensures
            final(self).wf(),
            final(self).samples() == old(self).samples().push(similarity_inc),
    {
        proof {
            lemma_sample_sum_push(self.samples@, similarity_inc);
        }
        self.similarity_inc_sum = self.similarity_inc_sum + similarity_inc;
        self.similarity_inc_count = self.similarity_inc_count + 1;
        self.samples = Ghost(self.samples@.push(similarity_inc));
    }

    /// The mean of the window's samples. With an empty window the result has
    /// no signal.
    pub fn compute_similarity(&self) -> (r: MetricValue)
        requires
            self.wf(),
        ensures
            r.num == sample_sum(self.samples()),
            r.den == self.samples().len(),
            r.spec_is_finite() <==> self.samples().len() > 0,
    {
        MetricValue { num: self.similarity_inc_sum, den: self.similarity_inc_count }
    }

    /// Forget the current window.
    pub fn reset(&mut self)
        ensures
            final(self).wf(),
            final(self).samples() == Seq::<u64>::empty(),
    {
        self.similarity_inc_sum = 0;
        self.similarity_inc_count = 0;
        self.samples = Ghost(Seq::empty());
    }
}

/// Wraps the similarity collector into the execution lifecycle: reset before
/// a run, snapshot the computed scalar after a run. A pure adapter with no
/// decision logic.
#[derive(Clone, Debug)]
pub struct InProcessSimilarityObserver {
    name: String,
    similarity: Option<MetricValue>,
}

impl InProcessSimilarityObserver {
    pub closed spec fn spec_cached(self) -> Option<MetricValue> {
        self.similarity
    }

    pub fn new(name: String) -> (r: InProcessSimilarityObserver)
        ensures
            r.spec_name() == name@,
            r.spec_cached() is None,
    {
        InProcessSimilarityObserver { name, similarity: Option::None }
    }

    /// Clear the collector and the cached scalar before an execution.
    pub fn pre_exec(&mut self, stats: &mut SimilarityStats)
        ensures
            final(stats).wf(),
            final(stats).samples() == Seq::<u64>::empty(),
            final(self).spec_cached() is None,
            final(self).spec_name() == old(self).spec_name(),
    {
        stats.reset();
        self.similarity = Option::None;
    }

    /// The snapshotted scalar, if an execution has been snapshotted since
    /// the last reset.
    pub fn cached(&self) -> (r: Option<MetricValue>)
        ensures
            r == self.spec_cached(),
    {
        self.similarity
    }

    /// Snapshot the collector's scalar after an execution.
    pub fn post_exec(&mut self, stats: &SimilarityStats)
        requires
            stats.wf(),
        ensures
            final(self).spec_cached() matches Some(v) && v.num == sample_sum(stats.samples())
                && v.den == stats.samples().len(),
            final(self).spec_name() == old(self).spec_name(),
    {
        self.similarity = Option::Some(stats.compute_similarity());
    }
}

impl SimilarityObserver for InProcessSimilarityObserver {
    closed spec fn spec_name(&self) -> Seq<char> {
        self.name@
    }

    open spec fn similarity_ready(&self) -> bool {
        self.spec_cached() is Some
    }

    open spec fn spec_similarity(&self) -> MetricValue {
        self.spec_cached()->Some_0
    }

    fn name(&self) -> (r: &str) {
        self.name.as_str()
    }

    /// The snapshotted scalar; asking before any snapshot is a wiring error.
    fn similarity(&self) -> (r: MetricValue) {
        match self.similarity {
            Option::Some(v) => v,
            Option::None => unreached(),
        }
    }
}

} // verus!
