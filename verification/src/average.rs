//! Exact online mean.
//!
//! The running average of accepted relevance values follows the online-mean
//! recurrence `avg' = avg + (value - avg) / queue_length`, with the corpus
//! size after the insertion as the sample count. The average is kept as an
//! exact rational, reduced after every step, so the recurrence holds with no
//! rounding at all; a step fails explicitly in the (astronomically unlikely)
//! case that the reduced numerator or denominator no longer fits in 128
//! bits.

use vstd::arithmetic::div_mod::{lemma_fundamental_div_mod, lemma_fundamental_div_mod_converse};
use vstd::prelude::*;

use crate::window::sample_sum;

verus! {

/// Greatest common divisor, by Euclid's recurrence.
pub open spec fn spec_gcd(a: nat, b: nat) -> nat
    decreases b,
{
    if b == 0 {
        a
    } else {
        spec_gcd(b, (a % b) as nat)
    }
}

/// `d` divides `n`.
pub open spec fn spec_divides(d: nat, n: nat) -> bool {
    d != 0 && n as int % (d as int) == 0
}

/// Two rationals, given as numerator and denominator, have the same value.
pub open spec fn spec_ratio_eq(an: int, ad: int, bn: int, bd: int) -> bool {
    an * bd == bn * ad
}

/// One step of the online-mean recurrence
/// `avg' = ((qlen - 1) * avg + value) / qlen` over exact rationals:
/// the numerator of the next average, not yet reduced.
pub open spec fn spec_avg_step_num(num: int, den: int, cur: int, qlen: int) -> int {
    (qlen - 1) * num + cur * den
}

/// The denominator of the next average, not yet reduced.
pub open spec fn spec_avg_step_den(den: int, qlen: int) -> int {
    den * qlen
}

proof fn lemma_gcd_divides(a: nat, b: nat)
    requires
        a != 0 || b != 0,
    ensures
        spec_divides(spec_gcd(a, b), a),
        spec_divides(spec_gcd(a, b), b),
    decreases b,
{
    if b == 0 {
        assert(a as int % (a as int) == 0) by {
            lemma_fundamental_div_mod_converse(a as int, a as int, 1, 0);
        }
        assert(b as int % (a as int) == 0) by {
            lemma_fundamental_div_mod_converse(0, a as int, 0, 0);
        }
    } else {
        lemma_gcd_divides(b, (a % b) as nat);
        let g = spec_gcd(b, (a % b) as nat);
        // a == b * (a / b) + a % b, and g divides both b and a % b.
        lemma_fundamental_div_mod(a as int, b as int);
        let q = a as int / b as int;
        let r = (a % b) as int;
        lemma_fundamental_div_mod(b as int, g as int);
        lemma_fundamental_div_mod(r, g as int);
        let kb = b as int / g as int;
        let kr = r / g as int;
        assert(b as int == g * kb);
        assert(r == g * kr);
        assert(a as int == g * (kb * q + kr)) by (nonlinear_arith)
            requires
                a as int == b as int * q + r,
                b as int == g * kb,
                r == g * kr,
        ;
        assert(a as int % (g as int) == 0) by {
            assert(0 <= kb * q + kr) by (nonlinear_arith)
                requires
                    g >= 1,
                    a >= 0,
                    a as int == g * (kb * q + kr),
            ;
            lemma_fundamental_div_mod_converse(a as int, g as int, kb * q + kr, 0);
        }
    }
}

proof fn lemma_gcd_pos(a: nat, b: nat)
    requires
        a != 0 || b != 0,
    ensures
        spec_gcd(a, b) >= 1,
    decreases b,
{
    if b != 0 {
        lemma_gcd_pos(b, (a % b) as nat);
    }
}

/// Dividing numerator and denominator by a common divisor keeps the value.
proof fn lemma_reduce_keeps_value(n: nat, d: nat, g: nat)
    requires
        spec_divides(g, n),
        spec_divides(g, d),
    ensures
        spec_ratio_eq(n as int / g as int, d as int / g as int, n as int, d as int),
{
    lemma_fundamental_div_mod(n as int, g as int);
    lemma_fundamental_div_mod(d as int, g as int);
    let kn = n as int / g as int;
    let kd = d as int / g as int;
    assert(kn * (d as int) == (n as int) * kd) by (nonlinear_arith)
        requires
            n as int == g * kn,
            d as int == g * kd,
            g >= 1,
    ;
}

/// Exec Euclid's algorithm.
fn gcd_u128(a: u128, b: u128) -> (g: u128)
    requires
        a != 0 || b != 0,
    ensures
        g == spec_gcd(a as nat, b as nat),
        g >= 1,
{
    let mut x: u128 = a;
    let mut y: u128 = b;
    while y != 0
        invariant
            spec_gcd(x as nat, y as nat) == spec_gcd(a as nat, b as nat),
            x != 0 || y != 0,
        decreases y,
    {
        let r = x % y;
        x = y;
        y = r;
    }
    proof {
        lemma_gcd_pos(a as nat, b as nat);
    }
    x
}

/// The running mean of all values accepted so far, as an exact reduced
/// rational.
#[derive(Clone, Copy, Debug)]
pub struct RunningAverage {
    num: u128,
    den: u128,
}

impl RunningAverage {
    pub closed spec fn spec_num(self) -> int {
        self.num as int
    }

    pub closed spec fn spec_den(self) -> int {
        self.den as int
    }

    pub open spec fn wf(self) -> bool {
        self.spec_den() >= 1
    }

    /// The first accepted value becomes the average outright.
    pub fn first(cur: u64) -> (r: RunningAverage)
        ensures
            r.wf(),
            r.spec_num() == cur,
            r.spec_den() == 1,
    {
        RunningAverage { num: cur as u128, den: 1 }
    }

    /// Rebuild an average from its persisted parts, verbatim.
    pub fn from_parts(num: u128, den: u128) -> (r: RunningAverage)
        requires
            den >= 1,
        ensures
            r.wf(),
            r.spec_num() == num,
            r.spec_den() == den,
    {
        RunningAverage { num, den }
    }

    pub fn num(&self) -> (r: u128)
        ensures
            r == self.spec_num(),
    {
        self.num
    }

    pub fn den(&self) -> (r: u128)
        ensures
            r == self.spec_den(),
    {
        self.den
    }

    /// One online-mean step: move the average toward `cur` by
    /// `(cur - avg) / qlen`, exactly. Succeeds whenever the unreduced next
    /// numerator and denominator fit in 128 bits; on failure the average is
    /// left unchanged.
    pub fn update(&mut self, cur: u64, qlen: u64) -> (r: Result<(), crate::feedback::FeedbackError>)
        requires
            old(self).wf(),
            qlen >= 1,
        ensures
            final(self).wf(),
            ({
                let sn = spec_avg_step_num(
                    old(self).spec_num(),
                    old(self).spec_den(),
                    cur as int,
                    qlen as int,
                );
                let sd = spec_avg_step_den(old(self).spec_den(), qlen as int);
                if sn <= u128::MAX && sd <= u128::MAX {
                    &&& r is Ok
                    &&& spec_ratio_eq(final(self).spec_num(), final(self).spec_den(), sn, sd)
                    &&& final(self).spec_num() <= sn
                    &&& final(self).spec_den() <= sd
                } else {
                    &&& r == Err::<(), crate::feedback::FeedbackError>(
                        crate::feedback::FeedbackError::AverageOverflow,
                    )
                    &&& *final(self) == *old(self)
                }
            }),
    {
        let t1 = match (qlen as u128 - 1).checked_mul(self.num) {
            Option::Some(v) => v,
            Option::None => {
                return Result::Err(crate::feedback::FeedbackError::AverageOverflow);
            },
        };
        let t2 = match (cur as u128).checked_mul(self.den) {
            Option::Some(v) => v,
            Option::None => {
                return Result::Err(crate::feedback::FeedbackError::AverageOverflow);
            },
        };
        let sn = match t1.checked_add(t2) {
            Option::Some(v) => v,
            Option::None => {
                return Result::Err(crate::feedback::FeedbackError::AverageOverflow);
            },
        };
        let d0 = self.den;
        let sd = match self.den.checked_mul(qlen as u128) {
            Option::Some(v) => v,
            Option::None => {
                return Result::Err(crate::feedback::FeedbackError::AverageOverflow);
            },
        };
        proof {
            assert(sd >= 1) by (nonlinear_arith)
                requires
                    sd == d0 as int * qlen as int,
                    d0 >= 1,
                    qlen >= 1,
            ;
        }
        let g = gcd_u128(sn, sd);
        proof {
            lemma_gcd_divides(sn as nat, sd as nat);
            lemma_reduce_keeps_value(sn as nat, sd as nat, g as nat);
            lemma_fundamental_div_mod(sd as int, g as int);
            assert(sd as int / g as int >= 1) by (nonlinear_arith)
                requires
                    sd as int == g as int * (sd as int / g as int) + sd as int % (g as int),
                    sd as int % (g as int) == 0,
                    sd >= 1,
                    g >= 1,
            ;
            lemma_fundamental_div_mod(sn as int, g as int);
            assert(sn as int / g as int <= sn as int) by (nonlinear_arith)
                requires
                    sn as int == g as int * (sn as int / g as int) + sn as int % (g as int),
                    0 <= sn as int % (g as int),
                    sn as int / g as int >= 0,
                    g >= 1,
            ;
            assert(sd as int / g as int <= sd as int) by (nonlinear_arith)
                requires
                    sd as int == g as int * (sd as int / g as int) + sd as int % (g as int),
                    0 <= sd as int % (g as int),
                    sd as int / g as int >= 0,
                    g >= 1,
            ;
        }
        self.num = sn / g;
        self.den = sd / g;
        Result::Ok(())
    }
}

/// The average after a nonempty sequence of acceptances whose queue length
/// at the i-th acceptance is `i + 1`: the first value becomes the average
/// outright, every later one moves it by the online-mean step.
pub open spec fn spec_mean_rec(values: Seq<u64>) -> (int, int)
    decreases values.len(),
{
    if values.len() <= 1 {
        (if values.len() == 1 {
            values[0] as int
        } else {
            0
        }, 1)
    } else {
        let prev = spec_mean_rec(values.drop_last());
        (
            spec_avg_step_num(prev.0, prev.1, values.last() as int, values.len() as int),
            spec_avg_step_den(prev.1, values.len() as int),
        )
    }
}

/// The online-mean recurrence applied in order, with the queue growing by
/// one at each acceptance, is exactly the arithmetic mean of the accepted
/// values.
pub proof fn lemma_online_mean_is_arithmetic_mean(values: Seq<u64>)
    requires
        values.len() >= 1,
    ensures
        spec_mean_rec(values).1 >= 1,
        spec_ratio_eq(
            spec_mean_rec(values).0,
            spec_mean_rec(values).1,
            sample_sum(values),
            values.len() as int,
        ),
    decreases values.len(),
{
    if values.len() == 1 {
        assert(sample_sum(values) == sample_sum(values.drop_last()) + values.last());
        assert(sample_sum(values.drop_last()) == 0);
    } else {
        lemma_online_mean_is_arithmetic_mean(values.drop_last());
        let prev = spec_mean_rec(values.drop_last());
        let n = prev.0;
        let d = prev.1;
        let k = values.drop_last().len() as int;
        let v = values.last() as int;
        let s = sample_sum(values.drop_last());
        assert(sample_sum(values) == s + v);
        assert(spec_avg_step_den(d, k + 1) >= 1) by (nonlinear_arith)
            requires
                d >= 1,
                k >= 1,
        ;
        assert(spec_avg_step_num(n, d, v, k + 1) * (k + 1) == (s + v) * spec_avg_step_den(
            d,
            k + 1,
        )) by (nonlinear_arith)
            requires
                n * k == s * d,
                k >= 1,
                d >= 1,
        ;
    }
}

} // verus!
