//! Distance-to-target collection.
//!
//! The instrumentation reports, once per covered site, the distance of a
//! basic block to the nearest target location, pre-scaled by 1000 and
//! truncated to an integer. The collector accumulates the scaled samples and
//! reports their mean as the execution's distance; an execution that covered
//! no instrumented site has no signal.

use vstd::prelude::*;

use crate::feedback::DistanceObserver;
use crate::metric::MetricValue;
use crate::window::{lemma_sample_sum_push, sample_sum};

verus! {

/// Running distance accumulator for one execution.
pub struct DistanceStats {
    bb_distance_sum: u64,
    bb_distance_count: u64,
    samples: Ghost<Seq<u64>>,
}

impl DistanceStats {
    /// The samples added since the last reset, in call order.
    pub closed spec fn samples(self) -> Seq<u64> {
        self.samples@
    }

    /// The counters agree with the recorded window.
    pub closed spec fn wf(self) -> bool {
        &&& self.bb_distance_sum == sample_sum(self.samples@)
        &&& self.bb_distance_count == self.samples@.len()
    }

    pub fn new() -> (r: DistanceStats)
        ensures
            r.wf(),
            r.samples() == Seq::<u64>::empty(),
    {
        DistanceStats {
            bb_distance_sum: 0,
            bb_distance_count: 0,
            samples: Ghost(Seq::empty()),
        }
    }

    /// Record one scaled basic-block distance sample.
    pub fn add_bb_distance(&mut self, bb_distance: u64)
        requires
            old(self).wf(),
            sample_sum(old(self).samples()) + bb_distance <= u64::MAX,
            old(self).samples().len() + 1 <= u64::MAX,
        ensures
            final(self).wf(),
            final(self).samples() == old(self).samples().push(bb_distance),
    {
        proof {
            lemma_sample_sum_push(self.samples@, bb_distance);
        }
        self.bb_distance_sum = self.bb_distance_sum + bb_distance;
        self.bb_distance_count = self.bb_distance_count + 1;
        self.samples = Ghost(self.samples@.push(bb_distance));
    }

    /// The mean of the window's samples: the sum of the scaled samples over
    /// their count. With an empty window the result has no signal.
    pub fn compute_test_case_distance(&self) -> (r: MetricValue)
        requires
            self.wf(),
        ensures
            r.num == sample_sum(self.samples()),
            r.den == self.samples().len(),
            r.spec_is_finite() <==> self.samples().len() > 0,
    {
        MetricValue { num: self.bb_distance_sum, den: self.bb_distance_count }
    }

    /// Forget the current window.
    pub fn reset(&mut self)
        ensures
            final(self).wf(),
            final(self).samples() == Seq::<u64>::empty(),
    {
        self.bb_distance_sum = 0;
        self.bb_distance_count = 0;
        self.samples = Ghost(Seq::empty());
    }
}

/// The execution's distance from a shared accumulator handle.
pub fn compute_test_case_distance(stats: &DistanceStats) -> (r: MetricValue)
    requires
        stats.wf(),
    ensures
        r.num == sample_sum(stats.samples()),
        r.den == stats.samples().len(),
{
    stats.compute_test_case_distance()
}

/// Clear a shared accumulator handle before the next execution.
pub fn reset_distance_stats(stats: &mut DistanceStats)
    ensures
        final(stats).wf(),
        final(stats).samples() == Seq::<u64>::empty(),
{
    stats.reset()
}

/// Wraps the distance collector into the execution lifecycle: reset before a
/// run, snapshot the computed scalar after a run. A pure adapter with no
/// decision logic.
#[derive(Clone, Debug)]
pub struct InProcessDistanceObserver {
    name: String,
    distance: Option<MetricValue>,
}

impl InProcessDistanceObserver {
    pub closed spec fn spec_cached(self) -> Option<MetricValue> {
        self.distance
    }

    pub fn new(name: String) -> (r: InProcessDistanceObserver)
        ensures
            r.spec_name() == name@,
            r.spec_cached() is None,
    {
        InProcessDistanceObserver { name, distance: Option::None }
    }

    /// Clear the collector and the cached scalar before an execution.
    pub fn pre_exec(&mut self, stats: &mut DistanceStats)
        ensures
            final(stats).wf(),
            final(stats).samples() == Seq::<u64>::empty(),
            final(self).spec_cached() is None,
            final(self).spec_name() == old(self).spec_name(),
    {
        stats.reset();
        self.distance = Option::None;
    }

    /// The snapshotted scalar, if an execution has been snapshotted since
    /// the last reset.
    pub fn cached(&self) -> (r: Option<MetricValue>)
        ensures
            r == self.spec_cached(),
    {
        self.distance
    }

    /// Snapshot the collector's scalar after an execution.
    pub fn post_exec(&mut self, stats: &DistanceStats)
        requires
            stats.wf(),
        ensures
            final(self).spec_cached() matches Some(d) && d.num == sample_sum(stats.samples())
                && d.den == stats.samples().len(),
            final(self).spec_name() == old(self).spec_name(),
    {
        self.distance = Option::Some(stats.compute_test_case_distance());
    }
}

impl DistanceObserver for InProcessDistanceObserver {
    closed spec fn spec_name(&self) -> Seq<char> {
        self.name@
    }

    open spec fn distance_ready(&self) -> bool {
        self.spec_cached() is Some
    }

    open spec fn spec_distance(&self) -> MetricValue {
        self.spec_cached()->Some_0
    }

    fn name(&self) -> (r: &str) {
        self.name.as_str()
    }

    /// The snapshotted scalar; asking before any snapshot is a wiring error.
    fn distance(&self) -> (r: MetricValue) {
        match self.distance {
            Option::Some(d) => d,
            Option::None => unreached(),
        }
    }
}

} // verus!
