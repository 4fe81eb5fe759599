//! Fixed-point numbers shared by the metric, vectorizer and scorer layers.
//!
//! Every quantity that the classifier handles (a metric, a feature, a scaler
//! parameter, a centroid coordinate, a distance) is an `i128` holding the real
//! value multiplied by `SCALE`.  All arithmetic on them is exact integer
//! arithmetic, so the whole pipeline is deterministic down to the last unit.
use vstd::prelude::*;

verus! {

/// One whole unit in fixed-point representation.
pub const SCALE: i128 = 1_000_000;

/// Bound on the magnitude of any metric or raw feature value (2^90).
pub const METRIC_BOUND: i128 = 1_237_940_039_285_380_274_899_124_224;

/// Bound on the magnitude of a scaled feature or a centroid coordinate (2^60).
pub const SCALED_BOUND: i128 = 1_152_921_504_606_846_976;

/// Bound on the magnitude of a per-feature scale parameter (2^36).
pub const SCALE_PARAM_BOUND: i128 = 68_719_476_736;

/// Bound on the magnitude of a per-feature offset parameter (2^59).
pub const OFFSET_BOUND: i128 = 576_460_752_303_423_488;

/// Division that truncates toward zero, the rounding used throughout the
/// pipeline; `den` must be positive.
pub open spec fn div_trunc(num: int, den: int) -> int {
    if num >= 0 {
        num / den
    } else {
        -((-num) / den)
    }
}

/// The fixed-point value of the ratio `num / den`.
pub open spec fn rate_spec(num: int, den: int) -> int {
    div_trunc(num * SCALE, den)
}

/// The fixed-point value of the whole number `n`.
pub open spec fn fx_spec(n: int) -> int {
    n * SCALE
}

proof fn lemma_div_le_num(num: int, den: int)
    requires
        num >= 0,
        den >= 1,
    ensures
        0 <= num / den <= num,
{
    vstd::arithmetic::div_mod::lemma_div_pos_is_pos(num, den);
    vstd::arithmetic::div_mod::lemma_div_nonincreasing(num, den);
}

/// The magnitude of a truncated quotient never exceeds the numerator's.
pub proof fn lemma_div_trunc_bound(num: int, den: int)
    requires
        den >= 1,
    ensures
        num >= 0 ==> 0 <= div_trunc(num, den) <= num,
        num < 0 ==> num <= div_trunc(num, den) <= 0,
{
    if num >= 0 {
        lemma_div_le_num(num, den);
    } else {
        lemma_div_le_num(-num, den);
    }
}

/// A rate is bounded by `|num| * SCALE`.
pub proof fn lemma_rate_bound(num: int, den: int)
    requires
        den >= 1,
    ensures
        num >= 0 ==> 0 <= rate_spec(num, den) <= num * SCALE,
        num < 0 ==> num * SCALE <= rate_spec(num, den) <= 0,
{
    lemma_div_trunc_bound(num * SCALE, den);
    if num >= 0 {
        vstd::arithmetic::mul::lemma_mul_nonnegative(num, SCALE as int);
    } else {
        vstd::arithmetic::mul::lemma_mul_strict_inequality(num, 0, SCALE as int);
    }
}

/// A count scaled to fixed point stays within the metric bound.
proof fn lemma_count_scale_bound(count: int)
    requires
        0 <= count <= u64::MAX,
    ensures
        0 <= count * SCALE <= METRIC_BOUND,
        count * SCALE < i128::MAX,
{
    vstd::arithmetic::mul::lemma_mul_nonnegative(count, SCALE as int);
    vstd::arithmetic::mul::lemma_mul_inequality(count, u64::MAX as int, SCALE as int);
}

/// Bound on the numerators handed to the wide fixed-point helpers (2^68).
pub const WIDE_NUM_BOUND: u128 = 295_147_905_179_352_825_856;

/// A wide count scaled to fixed point stays within the metric bound.
proof fn lemma_wide_scale_bound(n: int)
    requires
        0 <= n <= WIDE_NUM_BOUND,
    ensures
        0 <= n * SCALE <= METRIC_BOUND,
        n * SCALE < u128::MAX,
        n * SCALE < i128::MAX,
{
    vstd::arithmetic::mul::lemma_mul_nonnegative(n, SCALE as int);
    vstd::arithmetic::mul::lemma_mul_inequality(n, WIDE_NUM_BOUND as int, SCALE as int);
}

/// Fixed-point value of the wide count `n`.
pub fn wide_count_fx(n: u128) -> (r: i128)
    requires
        n <= WIDE_NUM_BOUND,
    ensures
        r == fx_spec(n as int),
        0 <= r <= METRIC_BOUND,
{
    proof {
        lemma_wide_scale_bound(n as int);
    }
    (n as i128) * SCALE
}

/// Fixed-point signed rate `(num - neg) / den` over wide operands.
pub fn wide_rate_fx(num: u128, neg: u128, den: u128) -> (r: i128)
    requires
        1 <= den,
        num <= WIDE_NUM_BOUND,
        neg <= WIDE_NUM_BOUND,
    ensures
        r == rate_spec(num - neg, den as int),
        -METRIC_BOUND <= r <= METRIC_BOUND,
{
    if num >= neg {
        let d = num - neg;
        proof {
            lemma_wide_scale_bound(d as int);
            lemma_rate_bound(d as int, den as int);
        }
        let q: u128 = (d * (SCALE as u128)) / den;
        q as i128
    } else {
        let d = neg - num;
        proof {
            lemma_wide_scale_bound(d as int);
            lemma_rate_bound(d as int, den as int);
            vstd::arithmetic::mul::lemma_mul_unary_negation((num - neg) as int, SCALE as int);
            assert((num - neg) as int == -(d as int));
            lemma_rate_bound((num - neg) as int, den as int);
        }
        let q: u128 = (d * (SCALE as u128)) / den;
        -(q as i128)
    }
}

/// Fixed-point representation of a count, as used for the raw-count metrics.
pub fn count_fx(count: usize) -> (r: i128)
    ensures
        r == fx_spec(count as int),
        0 <= r <= METRIC_BOUND,
{
    proof {
        lemma_count_scale_bound(count as int);
    }
    (count as i128) * SCALE
}

/// Fixed-point rate `count / sc`, as used for the per-sentence metrics.
pub fn rate_fx(count: usize, sc: usize) -> (r: i128)
    requires
        sc >= 1,
    ensures
        r == rate_spec(count as int, sc as int),
        0 <= r <= METRIC_BOUND,
{
    proof {
        lemma_count_scale_bound(count as int);
        lemma_rate_bound(count as int, sc as int);
    }
    let num: u128 = (count as u128) * (SCALE as u128);
    let q: u128 = num / (sc as u128);
    q as i128
}

/// Fixed-point signed rate `(pos - neg) / sc`, as used for the metrics that a
/// negative lexicon corrects.
pub fn signed_rate_fx(pos: usize, neg: usize, sc: usize) -> (r: i128)
    requires
        sc >= 1,
    ensures
        r == rate_spec(pos - neg, sc as int),
        -METRIC_BOUND <= r <= METRIC_BOUND,
{
    if pos >= neg {
        rate_fx(pos - neg, sc)
    } else {
        let m = rate_fx(neg - pos, sc);
        proof {
            vstd::arithmetic::mul::lemma_mul_unary_negation(pos - neg, SCALE as int);
            assert((neg - pos) as int == -((pos - neg) as int));
        }
        -m
    }
}

/// Fixed-point signed whole number `pos - neg`.
pub fn signed_count_fx(pos: usize, neg: usize) -> (r: i128)
    ensures
        r == fx_spec(pos - neg),
        -METRIC_BOUND <= r <= METRIC_BOUND,
{
    if pos >= neg {
        count_fx(pos - neg)
    } else {
        let m = count_fx(neg - pos);
        proof {
            vstd::arithmetic::mul::lemma_mul_unary_negation(pos - neg, SCALE as int);
            assert((neg - pos) as int == -((pos - neg) as int));
        }
        -m
    }
}

} // verus!
