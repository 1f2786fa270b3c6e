//! The scalar proximity value attached to one execution.

use vstd::prelude::*;

verus! {

/// One directed-fuzzing scalar, kept as the exact rational `num / den` in
/// thousandths of the underlying unit: `num` is a sum of samples that the
/// instrumentation pre-scaled by 1000, `den` is the number of samples.
/// `den == 0` stands for "no signal" (the not-a-number outcome of an empty
/// sample window); such a value is not finite and never orders against
/// another value.
#[derive(Clone, Copy, Debug, PartialEq, Eq, Structural)]
pub struct MetricValue {
    pub num: u64,
    pub den: u64,
}

/// A product of two 64-bit values always fits in 128 bits.
proof fn lemma_mul_u64_fits_u128(a: u64, b: u64)
    ensures
        (a as int) * (b as int) <= u128::MAX as int,
{
    assert((a as int) * (b as int) <= u128::MAX as int) by (nonlinear_arith)
        requires
            0 <= a as int <= u64::MAX as int,
            0 <= b as int <= u64::MAX as int,
    ;
}

impl MetricValue {
    /// A value carries a signal exactly when at least one sample backs it.
    pub open spec fn spec_is_finite(self) -> bool {
        self.den != 0
    }

    /// Rational order: `self < other` by cross multiplication. Meaningful
    /// only between finite values.
    pub open spec fn spec_lt(self, other: MetricValue) -> bool {
        (self.num as int) * (other.den as int) < (other.num as int) * (self.den as int)
    }

    /// Rational equality: `self == other` as values, not as pairs.
    pub open spec fn spec_eq_value(self, other: MetricValue) -> bool {
        (self.num as int) * (other.den as int) == (other.num as int) * (self.den as int)
    }

    /// Rational order: `self <= other` by cross multiplication.
    pub open spec fn spec_le(self, other: MetricValue) -> bool {
        (self.num as int) * (other.den as int) <= (other.num as int) * (self.den as int)
    }

    pub fn new(num: u64, den: u64) -> (r: MetricValue)
        ensures
            r.num == num,
            r.den == den,
    {
        MetricValue { num, den }
    }

    pub fn is_finite(&self) -> (r: bool)
        ensures
            r == self.spec_is_finite(),
    {
        self.den != 0
    }

    pub fn lt(&self, other: &MetricValue) -> (r: bool)
        ensures
            r == self.spec_lt(*other),
    {
        proof {
            lemma_mul_u64_fits_u128(self.num, other.den);
            lemma_mul_u64_fits_u128(other.num, self.den);
        }
        (self.num as u128) * (other.den as u128) < (other.num as u128) * (self.den as u128)
    }

    pub fn eq_value(&self, other: &MetricValue) -> (r: bool)
        ensures
            r == self.spec_eq_value(*other),
    {
        proof {
            lemma_mul_u64_fits_u128(self.num, other.den);
            lemma_mul_u64_fits_u128(other.num, self.den);
        }
        (self.num as u128) * (other.den as u128) == (other.num as u128) * (self.den as u128)
    }
}

/// The rational order is transitive between values that carry a signal.
pub proof fn lemma_le_trans(a: MetricValue, b: MetricValue, c: MetricValue)
    requires
        a.spec_is_finite(),
        b.spec_is_finite(),
        c.spec_is_finite(),
        a.spec_le(b),
        b.spec_le(c),
    ensures
        a.spec_le(c),
{
    assert((a.num as int) * (c.den as int) <= (c.num as int) * (a.den as int))
        by (nonlinear_arith)
        requires
            (a.num as int) * (b.den as int) <= (b.num as int) * (a.den as int),
            (b.num as int) * (c.den as int) <= (c.num as int) * (b.den as int),
            a.den > 0,
            b.den > 0,
            c.den > 0,
            a.num >= 0,
            b.num >= 0,
            c.num >= 0,
    ;
}

/// Magnitude of an integer.
pub open spec fn spec_abs(x: int) -> int {
    if x < 0 {
        -x
    } else {
        x
    }
}

/// A value normalized into a band, as an exact signed rational with a
/// positive denominator. It lies in `[0, 1]` exactly when the value lies
/// inside the band.
#[derive(Clone, Copy, Debug, PartialEq, Eq, Structural)]
pub struct NormalizedValue {
    pub negative: bool,
    pub num: u128,
    pub den: u128,
}

impl NormalizedValue {
    pub open spec fn spec_num(self) -> int {
        if self.negative {
            -(self.num as int)
        } else {
            self.num as int
        }
    }

    pub open spec fn spec_den(self) -> int {
        self.den as int
    }
}

/// The numerator of `cur - min` over the common denominator
/// `cur.den * min.den`.
pub open spec fn spec_offset_num(cur: MetricValue, min: MetricValue) -> int {
    (cur.num as int) * (min.den as int) - (min.num as int) * (cur.den as int)
}

/// `r` equals `(cur - min) / (max - min)` as rationals.
pub open spec fn spec_norm_matches(
    cur: MetricValue,
    min: MetricValue,
    max: MetricValue,
    r: NormalizedValue,
) -> bool {
    r.spec_num() * (spec_offset_num(max, min) * (cur.den as int)) == (spec_offset_num(cur, min)
        * (max.den as int)) * r.spec_den()
}

/// Both 128-bit magnitude products of the exact normalization fit.
pub open spec fn spec_norm_fits(cur: MetricValue, min: MetricValue, max: MetricValue) -> bool {
    &&& spec_abs(spec_offset_num(cur, min)) * (max.den as int) <= u128::MAX as int
    &&& spec_abs(spec_offset_num(max, min)) * (cur.den as int) <= u128::MAX as int
}

/// Normalize `cur` into the band `min .. max`, exactly:
/// `(cur - min) / (max - min)`. Yields nothing when `cur` carries no
/// signal, when the band is empty as values, or when a magnitude no longer
/// fits in 128 bits.
pub fn normalize_value(cur: MetricValue, min: MetricValue, max: MetricValue) -> (r: Option<
    NormalizedValue,
>)
    ensures
        r is Some <==> (cur.spec_is_finite() && !min.spec_eq_value(max) && spec_norm_fits(
            cur,
            min,
            max,
        )),
        r matches Some(n) ==> n.spec_den() > 0 && spec_norm_matches(cur, min, max, n),
{
    if !cur.is_finite() {
        return Option::None;
    }
    if min.eq_value(&max) {
        return Option::None;
    }
    proof {
        lemma_mul_u64_fits_u128(cur.num, min.den);
        lemma_mul_u64_fits_u128(min.num, cur.den);
        lemma_mul_u64_fits_u128(max.num, min.den);
        lemma_mul_u64_fits_u128(min.num, max.den);
    }
    let a1 = (cur.num as u128) * (min.den as u128);
    let a2 = (min.num as u128) * (cur.den as u128);
    let (offset_negative, offset_magnitude) = if a1 >= a2 {
        (false, a1 - a2)
    } else {
        (true, a2 - a1)
    };
    let b1 = (max.num as u128) * (min.den as u128);
    let b2 = (min.num as u128) * (max.den as u128);
    let (range_negative, range_magnitude) = if b1 >= b2 {
        (false, b1 - b2)
    } else {
        (true, b2 - b1)
    };
    let num = match offset_magnitude.checked_mul(max.den as u128) {
        Option::Some(v) => v,
        Option::None => {
            return Option::None;
        },
    };
    let den = match range_magnitude.checked_mul(cur.den as u128) {
        Option::Some(v) => v,
        Option::None => {
            return Option::None;
        },
    };
    let negative = num != 0 && (offset_negative != range_negative);
    let result = NormalizedValue { negative, num, den };
    proof {
        let ca = spec_offset_num(cur, min);
        let ra = spec_offset_num(max, min);
        assert(offset_magnitude == spec_abs(ca));
        assert(range_magnitude == spec_abs(ra));
        assert(den > 0) by (nonlinear_arith)
            requires
                den == spec_abs(ra) * (cur.den as int),
                spec_abs(ra) > 0,
                cur.den > 0,
        ;
        assert(result.spec_num() * (ra * (cur.den as int)) == (ca * (max.den as int))
            * result.spec_den()) by (nonlinear_arith)
            requires
                num == spec_abs(ca) * (max.den as int),
                den == spec_abs(ra) * (cur.den as int),
                result.spec_num() == (if num != 0 && (offset_negative != range_negative) {
                    -(num as int)
                } else {
                    num as int
                }),
                result.spec_den() == den as int,
                offset_negative == (ca < 0),
                range_negative == (ra < 0),
                ra != 0,
                cur.den > 0,
        ;
    }
    Option::Some(result)
}

} // verus!
