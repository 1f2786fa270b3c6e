//! The sample window of one execution.
//!
//! Between two resets a collector accumulates exactly one execution's worth
//! of samples. The window is modelled as the sequence of samples in call
//! order; what a collector reports only ever depends on the sum and length of
//! that sequence, so it is independent of the order in which the
//! instrumentation call sites fired.

use vstd::prelude::*;

verus! {

/// The sum of all samples in a window.
pub open spec fn sample_sum(s: Seq<u64>) -> int
    decreases s.len(),
{
    if s.len() == 0 {
        0
    } else {
        sample_sum(s.drop_last()) + s.last()
    }
}

pub proof fn lemma_sample_sum_push(s: Seq<u64>, v: u64)
    ensures
        sample_sum(s.push(v)) == sample_sum(s) + v,
{
    assert(s.push(v).drop_last() =~= s);
}

pub proof fn lemma_sample_sum_remove(s: Seq<u64>, i: int)
    requires
        0 <= i < s.len(),
    ensures
        sample_sum(s) == sample_sum(s.remove(i)) + s[i],
    decreases s.len(),
{
    if i == s.len() - 1 {
        assert(s.remove(i) =~= s.drop_last());
    } else {
        assert(s.remove(i).drop_last() =~= s.drop_last().remove(i));
        lemma_sample_sum_remove(s.drop_last(), i);
        assert(s.remove(i).last() == s.last());
    }
}

/// Accumulation is commutative and associative: two windows that hold the
/// same samples, in whatever order the call sites fired, sum to the same
/// total, so a collector computes the same scalar from either.
pub proof fn lemma_sample_sum_permutation(s1: Seq<u64>, s2: Seq<u64>)
    requires
        s1.to_multiset() == s2.to_multiset(),
    ensures
        sample_sum(s1) == sample_sum(s2),
    decreases s1.len(),
{
    broadcast use vstd::seq_lib::group_to_multiset_ensures;

    if s1.len() == 0 {
        assert(s2.to_multiset().len() == 0);
        assert(s2.len() == 0);
    } else {
        let x = s1.last();
        let s1p = s1.drop_last();
        assert(s1 =~= s1p.push(x));
        assert(s1.to_multiset() =~= s1p.to_multiset().insert(x));
        assert(s2.to_multiset().count(x) > 0);
        assert(s2.contains(x));
        let i = choose|i: int| 0 <= i < s2.len() && s2[i] == x;
        assert(s2.remove(i).to_multiset() =~= s2.to_multiset().remove(x));
        assert(s1p.to_multiset().insert(x).remove(x) =~= s1p.to_multiset());
        assert(s1p.to_multiset() =~= s2.remove(i).to_multiset());
        lemma_sample_sum_permutation(s1p, s2.remove(i));
        lemma_sample_sum_remove(s2, i);
        lemma_sample_sum_push(s1p, x);
    }
}

} // verus!
