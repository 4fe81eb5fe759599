//! The distance-based confidence scorer: a fitted per-feature affine scaler
//! and a two-centroid cluster model, both read-only artifacts loaded once at
//! startup, plus the scoring arithmetic.
//!
//! Distances and similarities are exact fixed-point numbers; confidence shares
//! are reported in basis points (hundredths of a percent), so the two shares
//! always sum to exactly 10000.
use vstd::prelude::*;
use crate::fx::{
    METRIC_BOUND, OFFSET_BOUND, SCALE, SCALED_BOUND, SCALE_PARAM_BOUND, div_trunc,
    lemma_div_trunc_bound,
};
use crate::vectorize::N_FEATURES;

verus! {

/// The full confidence scale: 100%, in basis points.
pub const BP_FULL: i128 = 10_000;

/// The distance function a model was trained with.
#[derive(Clone, Copy, Debug, PartialEq, Eq, Structural)]
pub enum DistanceKind {
    /// Fixed-point Euclidean distance: the integer square root of the sum of
    /// squared coordinate differences.
    Euclidean,
    /// Chebyshev distance: the largest coordinate difference.
    Chebyshev,
}

/// A fitted per-feature affine transform: `scaled = x * scale / SCALE
/// + offset`, clamped to the scaled-space bound.
pub struct LinearScaler {
    pub scales: Vec<i128>,
    pub offsets: Vec<i128>,
}

impl LinearScaler {
    pub open spec fn wf(&self) -> bool {
        &&& self.scales@.len() == N_FEATURES
        &&& self.offsets@.len() == N_FEATURES
        &&& forall|i: int| 0 <= i < N_FEATURES ==> -SCALE_PARAM_BOUND <= #[trigger] self.scales@[i]
            <= SCALE_PARAM_BOUND
        &&& forall|i: int| 0 <= i < N_FEATURES ==> -OFFSET_BOUND <= #[trigger] self.offsets@[i]
            <= OFFSET_BOUND
    }
}

/// A trained two-centroid cluster model in scaled feature space.
pub struct ClusterModel {
    pub centroids: Vec<Vec<i128>>,
    pub distance: DistanceKind,
}

impl ClusterModel {
    pub open spec fn wf(&self) -> bool {
        &&& self.centroids@.len() == 2
        &&& forall|k: int| 0 <= k < 2 ==> #[trigger] self.centroids@[k]@.len() == N_FEATURES
        &&& forall|k: int, i: int| 0 <= k < 2 && 0 <= i < N_FEATURES ==> -SCALED_BOUND
            <= #[trigger] self.centroids@[k]@[i] <= SCALED_BOUND
    }
}

/// The mathematical values of a fixed-point vector.
pub open spec fn ints_of(v: Seq<i128>) -> Seq<int> {
    v.map_values(|x: i128| x as int)
}

/// A value clamped to the scaled-space bound.
pub open spec fn clamp_spec(x: int) -> int {
    if x > SCALED_BOUND {
        SCALED_BOUND as int
    } else if x < -SCALED_BOUND {
        -SCALED_BOUND as int
    } else {
        x
    }
}

/// The affine transform of one coordinate, before clamping.
pub open spec fn affine_spec(x: int, scale: int, offset: int) -> int {
    div_trunc(x * scale, SCALE as int) + offset
}

/// The scaled feature vector: each coordinate transformed and clamped.
pub open spec fn scaled_features(features: Seq<int>, scaler: LinearScaler) -> Seq<int> {
    Seq::new(
        N_FEATURES as nat,
        |i: int| clamp_spec(
            affine_spec(features[i], scaler.scales@[i] as int, scaler.offsets@[i] as int),
        ),
    )
}

proof fn lemma_mul_mag_bound(a: int, b: int, ab: int, bb: int)
    by (nonlinear_arith)
    requires
        -ab <= a <= ab,
        -bb <= b <= bb,
        0 <= ab,
        0 <= bb,
    ensures
        -(ab * bb) <= a * b <= ab * bb,
{
}

/// Division by `SCALE`, truncating toward zero.
fn div_by_scale(num: i128) -> (r: i128)
    requires
        i128::MIN < num,
    ensures
        r == div_trunc(num as int, SCALE as int),
{
    proof {
        lemma_div_trunc_bound(num as int, SCALE as int);
    }
    if num >= 0 {
        (((num as u128) / (SCALE as u128)) as i128)
    } else {
        let m = (-num) as u128;
        -((m / (SCALE as u128)) as i128)
    }
}

/// Applies the fitted scaler to a raw feature vector.  Each coordinate is
/// transformed by its affine parameters and clamped to the scaled-space bound.
pub fn transform(scaler: &LinearScaler, features: &Vec<i128>) -> (r: Vec<i128>)
    requires
        scaler.wf(),
        features@.len() == N_FEATURES,
        forall|i: int| 0 <= i < N_FEATURES ==> -METRIC_BOUND <= #[trigger] features@[i]
            <= METRIC_BOUND,
    ensures
        r@.len() == N_FEATURES,
        forall|i: int| 0 <= i < N_FEATURES ==> r@[i] == scaled_features(
            ints_of(features@),
            *scaler,
        )[i],
        forall|i: int| 0 <= i < N_FEATURES ==> -SCALED_BOUND <= #[trigger] r@[i] <= SCALED_BOUND,
{
    let mut r: Vec<i128> = Vec::new();
    let mut i: usize = 0;
    let ghost ints = ints_of(features@);
    while i < N_FEATURES
        invariant
            scaler.wf(),
            features@.len() == N_FEATURES,
            forall|k: int| 0 <= k < N_FEATURES ==> -METRIC_BOUND <= #[trigger] features@[k]
                <= METRIC_BOUND,
            ints == ints_of(features@),
            i <= N_FEATURES,
            r@.len() == i,
            forall|k: int| 0 <= k < i ==> #[trigger] r@[k] == scaled_features(ints, *scaler)[k],
            forall|k: int| 0 <= k < i ==> -SCALED_BOUND <= #[trigger] r@[k] <= SCALED_BOUND,
        decreases N_FEATURES - i,
    {
        let x = features[i];
        let scale = scaler.scales[i];
        let offset = scaler.offsets[i];
        proof {
            lemma_mul_mag_bound(x as int, scale as int, METRIC_BOUND as int,
                SCALE_PARAM_BOUND as int);
            lemma_div_trunc_bound((x as int) * (scale as int), SCALE as int);
        }
        let prod = x * scale;
        let q = div_by_scale(prod);
        let scaled = q + offset;
        let clamped = if scaled > SCALED_BOUND {
            SCALED_BOUND
        } else if scaled < -SCALED_BOUND {
            -SCALED_BOUND
        } else {
            scaled
        };
        r.push(clamped);
        i += 1;
    }
    r
}

/// The floor of the square root of `x`.
pub open spec fn isqrt_spec(x: int) -> int
    decreases x,
{
    if x < 1 {
        0
    } else {
        let r = isqrt_spec(x - 1);
        if (r + 1) * (r + 1) <= x {
            r + 1
        } else {
            r
        }
    }
}

pub proof fn lemma_isqrt_bounds(x: int)
    requires
        x >= 0,
    ensures
        isqrt_spec(x) >= 0,
        isqrt_spec(x) * isqrt_spec(x) <= x,
        x < (isqrt_spec(x) + 1) * (isqrt_spec(x) + 1),
    decreases x,
{
    if x == 0 {
    } else {
        lemma_isqrt_bounds(x - 1);
        let p = isqrt_spec(x - 1);
        let r = isqrt_spec(x);
        if (p + 1) * (p + 1) <= x {
            assert(r == p + 1);
            assert(x < (r + 1) * (r + 1)) by (nonlinear_arith)
                requires
                    r == p + 1,
                    p >= 0,
                    x - 1 < (p + 1) * (p + 1),
            ;
        } else {
            assert(r == p);
            assert(x < (r + 1) * (r + 1));
        }
    }
}

pub proof fn lemma_isqrt_unique(x: int, r: int)
    requires
        x >= 0,
        r >= 0,
        r * r <= x,
        x < (r + 1) * (r + 1),
    ensures
        isqrt_spec(x) == r,
{
    lemma_isqrt_bounds(x);
    let s = isqrt_spec(x);
    assert(s == r) by (nonlinear_arith)
        requires
            r >= 0,
            s >= 0,
            r * r <= x,
            x < (r + 1) * (r + 1),
            s * s <= x,
            x < (s + 1) * (s + 1),
    ;
}

/// Domain bound of the integer square root (2^126).
pub const ISQRT_DOM: u128 = 85_070_591_730_234_615_865_843_651_857_942_052_864;

/// Root bound of the integer square root (2^63 - 1).
pub const ISQRT_ROOT_MAX: u128 = 9_223_372_036_854_775_807;

/// The integer square root, by binary search on the answer.
pub fn isqrt(x: u128) -> (r: u128)
    requires
        x < ISQRT_DOM,
    ensures
        r == isqrt_spec(x as int),
        r * r <= x,
        x < (r + 1) * (r + 1),
        r <= ISQRT_ROOT_MAX,
{
    let mut lo: u128 = 0;
    let mut hi: u128 = ISQRT_ROOT_MAX;
    proof {
        assert((ISQRT_ROOT_MAX + 1) * (ISQRT_ROOT_MAX + 1) == ISQRT_DOM) by (nonlinear_arith)
            requires
                ISQRT_ROOT_MAX == 9_223_372_036_854_775_807u128,
                ISQRT_DOM == 85_070_591_730_234_615_865_843_651_857_942_052_864u128,
        ;
    }
    while lo < hi
        invariant
            lo <= hi <= ISQRT_ROOT_MAX,
            lo * lo <= x,
            x < (hi + 1) * (hi + 1),
        decreases hi - lo,
    {
        let mid = lo + (hi - lo + 1) / 2;
        proof {
            assert(lo < mid <= hi);
            assert(mid * mid <= ISQRT_ROOT_MAX * ISQRT_ROOT_MAX) by (nonlinear_arith)
                requires
                    0 <= mid <= ISQRT_ROOT_MAX,
            ;
        }
        if mid * mid <= x {
            lo = mid;
        } else {
            hi = mid - 1;
        }
    }
    proof {
        lemma_isqrt_unique(x as int, lo as int);
    }
    lo
}

/// The magnitude of the difference of two coordinates.
pub open spec fn diff_mag(a: int, b: int) -> int {
    if a >= b {
        a - b
    } else {
        b - a
    }
}

/// Sum of squared coordinate differences over the first `i` columns.
pub open spec fn sumsq_upto(a: Seq<int>, b: Seq<int>, i: int) -> int
    decreases i,
{
    if i <= 0 {
        0
    } else {
        sumsq_upto(a, b, i - 1) + diff_mag(a[i - 1], b[i - 1]) * diff_mag(a[i - 1], b[i - 1])
    }
}

/// Largest coordinate difference over the first `i` columns.
pub open spec fn cheby_upto(a: Seq<int>, b: Seq<int>, i: int) -> int
    decreases i,
{
    if i <= 0 {
        0
    } else {
        let rest = cheby_upto(a, b, i - 1);
        let d = diff_mag(a[i - 1], b[i - 1]);
        if d > rest {
            d
        } else {
            rest
        }
    }
}

/// The configured distance between a row and a centroid.
pub open spec fn distance_spec(kind: DistanceKind, a: Seq<int>, b: Seq<int>) -> int {
    match kind {
        DistanceKind::Euclidean => isqrt_spec(sumsq_upto(a, b, N_FEATURES as int)),
        DistanceKind::Chebyshev => cheby_upto(a, b, N_FEATURES as int),
    }
}

proof fn lemma_sumsq_bounds(a: Seq<int>, b: Seq<int>, i: int)
    requires
        0 <= i <= N_FEATURES,
        forall|k: int| 0 <= k < i ==> -SCALED_BOUND <= #[trigger] a[k] <= SCALED_BOUND,
        forall|k: int| 0 <= k < i ==> -SCALED_BOUND <= #[trigger] b[k] <= SCALED_BOUND,
    ensures
        0 <= sumsq_upto(a, b, i) <= i * (4 * SCALED_BOUND * SCALED_BOUND),
    decreases i,
{
    if i > 0 {
        lemma_sumsq_bounds(a, b, i - 1);
        let d = diff_mag(a[i - 1], b[i - 1]);
        assert(0 <= d <= 2 * SCALED_BOUND);
        assert(0 <= d * d <= 4 * SCALED_BOUND * SCALED_BOUND) by (nonlinear_arith)
            requires
                0 <= d <= 2 * SCALED_BOUND,
        ;
        assert((i - 1) * (4 * SCALED_BOUND * SCALED_BOUND) + (4 * SCALED_BOUND * SCALED_BOUND)
            == i * (4 * SCALED_BOUND * SCALED_BOUND)) by (nonlinear_arith);
    }
}

proof fn lemma_cheby_bounds(a: Seq<int>, b: Seq<int>, i: int)
    requires
        0 <= i <= N_FEATURES,
        forall|k: int| 0 <= k < i ==> -SCALED_BOUND <= #[trigger] a[k] <= SCALED_BOUND,
        forall|k: int| 0 <= k < i ==> -SCALED_BOUND <= #[trigger] b[k] <= SCALED_BOUND,
    ensures
        0 <= cheby_upto(a, b, i) <= 2 * SCALED_BOUND,
    decreases i,
{
    if i > 0 {
        lemma_cheby_bounds(a, b, i - 1);
    }
}

/// Bound on any distance the scorer can produce.
pub const DIST_BOUND: i128 = 9_223_372_036_854_775_807;

/// A well-formed distance is non-negative and bounded.
pub proof fn lemma_distance_bounds(kind: DistanceKind, a: Seq<int>, b: Seq<int>)
    requires
        forall|k: int| 0 <= k < N_FEATURES ==> -SCALED_BOUND <= #[trigger] a[k] <= SCALED_BOUND,
        forall|k: int| 0 <= k < N_FEATURES ==> -SCALED_BOUND <= #[trigger] b[k] <= SCALED_BOUND,
    ensures
        0 <= distance_spec(kind, a, b) <= DIST_BOUND,
{
    match kind {
        DistanceKind::Euclidean => {
            lemma_sumsq_bounds(a, b, N_FEATURES as int);
            let s = sumsq_upto(a, b, N_FEATURES as int);
            lemma_isqrt_bounds(s);
            let r = isqrt_spec(s);
            assert(s < ISQRT_DOM);
            assert(r <= DIST_BOUND) by (nonlinear_arith)
                requires
                    r >= 0,
                    r * r <= s,
                    s < (DIST_BOUND + 1) * (DIST_BOUND + 1),
            ;
        },
        DistanceKind::Chebyshev => {
            lemma_cheby_bounds(a, b, N_FEATURES as int);
        },
    }
}

/// Computes the configured distance between `row` and `centroid`.
pub fn distance(kind: DistanceKind, row: &Vec<i128>, centroid: &Vec<i128>) -> (r: i128)
    requires
        row@.len() == N_FEATURES,
        centroid@.len() == N_FEATURES,
        forall|k: int| 0 <= k < N_FEATURES ==> -SCALED_BOUND <= #[trigger] row@[k] <= SCALED_BOUND,
        forall|k: int| 0 <= k < N_FEATURES ==> -SCALED_BOUND <= #[trigger] centroid@[k]
            <= SCALED_BOUND,
    ensures
        r == distance_spec(
            kind,
            ints_of(row@),
            ints_of(centroid@),
        ),
        0 <= r <= DIST_BOUND,
{
    let ghost a = ints_of(row@);
    let ghost b = ints_of(centroid@);
    match kind {
        DistanceKind::Euclidean => {
            let mut sum: u128 = 0;
            let mut i: usize = 0;
            while i < N_FEATURES
                invariant
                    i <= N_FEATURES,
                    row@.len() == N_FEATURES,
                    centroid@.len() == N_FEATURES,
                    a == ints_of(row@),
                    b == ints_of(centroid@),
                    forall|k: int| 0 <= k < N_FEATURES ==> -SCALED_BOUND <= #[trigger] row@[k]
                        <= SCALED_BOUND,
                    forall|k: int| 0 <= k < N_FEATURES ==> -SCALED_BOUND <= #[trigger] centroid@[k]
                        <= SCALED_BOUND,
                    sum == sumsq_upto(a, b, i as int),
                    sum <= i * (4 * SCALED_BOUND * SCALED_BOUND),
                decreases N_FEATURES - i,
            {
                let x = row[i];
                let y = centroid[i];
                let d: u128 = if x >= y {
                    (x - y) as u128
                } else {
                    (y - x) as u128
                };
                proof {
                    assert(d == diff_mag(a[i as int], b[i as int]));
                    assert(0 <= d * d <= 4 * SCALED_BOUND * SCALED_BOUND) by (nonlinear_arith)
                        requires
                            0 <= d <= 2 * SCALED_BOUND,
                    ;
                    assert((i as int) * (4 * SCALED_BOUND * SCALED_BOUND) + (4 * SCALED_BOUND
                        * SCALED_BOUND) == (i + 1) * (4 * SCALED_BOUND * SCALED_BOUND))
                        by (nonlinear_arith);
                    assert((i + 1) * (4 * SCALED_BOUND * SCALED_BOUND) <= 15 * (4 * SCALED_BOUND
                        * SCALED_BOUND)) by (nonlinear_arith)
                        requires
                            0 <= i + 1 <= 15,
                    ;
                }
                sum = sum + d * d;
                i += 1;
            }
            proof {
                lemma_sumsq_bounds(a, b, N_FEATURES as int);
                assert((15int) * (4 * SCALED_BOUND * SCALED_BOUND) < ISQRT_DOM);
            }
            let root = isqrt(sum);
            proof {
                lemma_distance_bounds(kind, a, b);
            }
            root as i128
        },
        DistanceKind::Chebyshev => {
            let mut best: i128 = 0;
            let mut i: usize = 0;
            while i < N_FEATURES
                invariant
                    i <= N_FEATURES,
                    row@.len() == N_FEATURES,
                    centroid@.len() == N_FEATURES,
                    a == ints_of(row@),
                    b == ints_of(centroid@),
                    forall|k: int| 0 <= k < N_FEATURES ==> -SCALED_BOUND <= #[trigger] row@[k]
                        <= SCALED_BOUND,
                    forall|k: int| 0 <= k < N_FEATURES ==> -SCALED_BOUND <= #[trigger] centroid@[k]
                        <= SCALED_BOUND,
                    best == cheby_upto(a, b, i as int),
                    0 <= best <= 2 * SCALED_BOUND,
                decreases N_FEATURES - i,
            {
                let x = row[i];
                let y = centroid[i];
                let d: i128 = if x >= y {
                    x - y
                } else {
                    y - x
                };
                if d > best {
                    best = d;
                }
                i += 1;
            }
            best
        },
    }
}

/// The share of cluster 0 in the normalized similarity distribution, in basis
/// points, before the tie-break.  With similarities `1 / (1 + d)`, cluster 0's
/// normalized share is `(SCALE + d1) / (2 * SCALE + d0 + d1)`.
pub open spec fn share0_bp(d0: int, d1: int) -> int {
    (BP_FULL * (SCALE + d1)) / (2 * SCALE + d0 + d1)
}

/// The reported share of cluster 0: where quantization to basis points would
/// tie the shares of two different distances, one basis point moves to the
/// nearer centroid, so the strict order of the exact similarities survives in
/// the reported pair.
pub open spec fn share0_adj(d0: int, d1: int) -> int {
    let s = share0_bp(d0, d1);
    if s == BP_FULL / 2 && d0 < d1 {
        s + 1
    } else if s == BP_FULL / 2 && d0 > d1 {
        s - 1
    } else {
        s
    }
}

/// A share lies between 0 and 10000 basis points.
pub proof fn lemma_share_bounds(d0: int, d1: int)
    requires
        d0 >= 0,
        d1 >= 0,
    ensures
        0 <= share0_bp(d0, d1) <= BP_FULL,
{
    let num = BP_FULL * (SCALE + d1);
    let den = 2 * SCALE + d0 + d1;
    vstd::arithmetic::mul::lemma_mul_inequality(SCALE + d1, den, BP_FULL as int);
    vstd::arithmetic::div_mod::lemma_div_pos_is_pos(num, den);
    vstd::arithmetic::div_mod::lemma_div_is_ordered(num, den * BP_FULL, den);
    vstd::arithmetic::div_mod::lemma_div_by_multiple(BP_FULL as int, den);
    assert(den * BP_FULL == BP_FULL * den) by (nonlinear_arith);
    vstd::arithmetic::mul::lemma_mul_nonnegative(BP_FULL as int, SCALE + d1);
}

/// Distances and the normalized similarity distribution of a scaled feature
/// row against the model's two centroids.
///
/// Each distance is turned into the similarity `1 / (1 + d)` and the pair is
/// normalized to sum to one; in fixed point the result is the pair of shares
/// in basis points, which by construction sums to exactly `BP_FULL`.  Where
/// quantization would tie the shares of two different distances, one basis
/// point moves to the nearer centroid, so a strictly smaller distance always
/// reports a strictly larger share, and equal distances report equal shares.
/// The sum of the two raw similarities is always positive here, because
/// fixed-point distances are finite, so the degenerate unnormalized case of a
/// zero sum cannot arise.
pub fn point_confidence(model: &ClusterModel, row: &Vec<i128>) -> (r: (Vec<i128>, Vec<i128>))
    requires
        model.wf(),
        row@.len() == N_FEATURES,
        forall|k: int| 0 <= k < N_FEATURES ==> -SCALED_BOUND <= #[trigger] row@[k] <= SCALED_BOUND,
    ensures
        r.0@.len() == 2,
        r.1@.len() == 2,
        r.0@[0] == distance_spec(
            model.distance,
            ints_of(row@),
            ints_of(model.centroids@[0]@),
        ),
        r.0@[1] == distance_spec(
            model.distance,
            ints_of(row@),
            ints_of(model.centroids@[1]@),
        ),
        r.1@[0] == share0_adj(r.0@[0] as int, r.0@[1] as int),
        r.1@[1] == BP_FULL - r.1@[0],
        r.1@[0] + r.1@[1] == BP_FULL,
        0 <= r.1@[0] <= BP_FULL,
        0 <= r.1@[1] <= BP_FULL,
        r.0@[0] < r.0@[1] ==> r.1@[0] > r.1@[1],
        r.0@[0] > r.0@[1] ==> r.1@[1] > r.1@[0],
        r.0@[0] == r.0@[1] ==> r.1@[0] == r.1@[1],
{
    let d0 = distance(model.distance, row, &model.centroids[0]);
    let d1 = distance(model.distance, row, &model.centroids[1]);
    proof {
        lemma_share_bounds(d0 as int, d1 as int);
        lemma_share_adj_bounds(d0 as int, d1 as int);
    }
    let num: u128 = (BP_FULL as u128) * ((SCALE as u128) + (d1 as u128));
    let den: u128 = 2 * (SCALE as u128) + (d0 as u128) + (d1 as u128);
    let s_raw = (num / den) as i128;
    proof {
        assert((BP_FULL as u128) * ((SCALE as u128) + (d1 as u128)) == BP_FULL * (SCALE + d1))
            by (nonlinear_arith)
            requires
                0 <= d1 <= DIST_BOUND,
        ;
    }
    let s0 = if s_raw == 5_000 && d0 < d1 {
        s_raw + 1
    } else if s_raw == 5_000 && d0 > d1 {
        s_raw - 1
    } else {
        s_raw
    };
    let s1 = BP_FULL - s0;
    let distances: Vec<i128> = vec![d0, d1];
    let sims: Vec<i128> = vec![s0, s1];
    (distances, sims)
}

proof fn lemma_sumsq_self_zero(a: Seq<int>, i: int)
    requires
        i >= 0,
    ensures
        sumsq_upto(a, a, i) == 0,
    decreases i,
{
    if i > 0 {
        lemma_sumsq_self_zero(a, i - 1);
        let d = diff_mag(a[i - 1], a[i - 1]);
        assert(d == 0);
        vstd::arithmetic::mul::lemma_mul_by_zero_is_zero(d);
    }
}

proof fn lemma_cheby_self_zero(a: Seq<int>, i: int)
    requires
        i >= 0,
    ensures
        cheby_upto(a, a, i) == 0,
    decreases i,
{
    if i > 0 {
        lemma_cheby_self_zero(a, i - 1);
    }
}

/// The distance from a point to itself is zero.
pub proof fn lemma_distance_self_zero(kind: DistanceKind, a: Seq<int>)
    ensures
        distance_spec(kind, a, a) == 0,
{
    lemma_sumsq_self_zero(a, N_FEATURES as int);
    lemma_cheby_self_zero(a, N_FEATURES as int);
}

proof fn lemma_sumsq_ge_term(a: Seq<int>, b: Seq<int>, i: int, j: int)
    requires
        0 <= j < i,
    ensures
        sumsq_upto(a, b, i) >= diff_mag(a[j], b[j]) * diff_mag(a[j], b[j]),
    decreases i,
{
    let d = diff_mag(a[i - 1], b[i - 1]);
    vstd::arithmetic::mul::lemma_mul_nonnegative(d, d);
    if j < i - 1 {
        lemma_sumsq_ge_term(a, b, i - 1, j);
    } else {
        lemma_sumsq_nonneg(a, b, i - 1);
    }
}

proof fn lemma_sumsq_nonneg(a: Seq<int>, b: Seq<int>, i: int)
    ensures
        sumsq_upto(a, b, i) >= 0,
    decreases i,
{
    if i > 0 {
        lemma_sumsq_nonneg(a, b, i - 1);
        let d = diff_mag(a[i - 1], b[i - 1]);
        vstd::arithmetic::mul::lemma_mul_nonnegative(d, d);
    }
}

proof fn lemma_cheby_ge_term(a: Seq<int>, b: Seq<int>, i: int, j: int)
    requires
        0 <= j < i,
    ensures
        cheby_upto(a, b, i) >= diff_mag(a[j], b[j]),
    decreases i,
{
    if j < i - 1 {
        lemma_cheby_ge_term(a, b, i - 1, j);
    }
}

/// The distance between two rows that differ in some column is at least one
/// fixed-point unit.
pub proof fn lemma_distance_positive(kind: DistanceKind, a: Seq<int>, b: Seq<int>)
    requires
        a.len() == N_FEATURES,
        b.len() == N_FEATURES,
        a != b,
    ensures
        distance_spec(kind, a, b) >= 1,
{
    assert(exists|j: int| 0 <= j < N_FEATURES && a[j] != b[j]) by {
        if forall|j: int| 0 <= j < N_FEATURES ==> a[j] == b[j] {
            assert(a =~= b);
        }
    }
    let j = choose|j: int| 0 <= j < N_FEATURES && a[j] != b[j];
    let d = diff_mag(a[j], b[j]);
    assert(d >= 1);
    match kind {
        DistanceKind::Euclidean => {
            lemma_sumsq_ge_term(a, b, N_FEATURES as int, j);
            assert(d * d >= 1) by (nonlinear_arith)
                requires
                    d >= 1,
            ;
            let s = sumsq_upto(a, b, N_FEATURES as int);
            lemma_isqrt_bounds(s);
            let r = isqrt_spec(s);
            if r == 0 {
                assert((r + 1) * (r + 1) == 1) by (nonlinear_arith)
                    requires
                        r == 0,
                ;
                assert(false);
            }
        },
        DistanceKind::Chebyshev => {
            lemma_cheby_ge_term(a, b, N_FEATURES as int, j);
        },
    }
}

/// Similarity `1 / (1 + d)` is strictly decreasing in the distance: as exact
/// fractions with the fixed-point unit, `SCALE / (SCALE + d1)
/// > SCALE / (SCALE + d2)` exactly when `d1 < d2`; cross-multiplied, the
/// comparison below.
pub proof fn lemma_similarity_monotone(d1: int, d2: int)
    requires
        0 <= d1 < d2,
    ensures
        SCALE * (SCALE + d2) > SCALE * (SCALE + d1),
{
}

/// For a feature row equal to one centroid, while the other centroid differs,
/// the matching centroid's distance is zero and the other's is strictly
/// positive, so by [`lemma_similarity_monotone`] the matching centroid's exact
/// similarity is strictly the maximum; its reported share of the normalized
/// distribution is strictly more than half, so strictly the larger of the two.
pub proof fn lemma_centroid_similarity_max(model: ClusterModel, k: int)
    requires
        model.wf(),
        0 <= k < 2,
        ints_of(model.centroids@[k]@) != ints_of(model.centroids@[1 - k]@),
    ensures
        distance_spec(model.distance, ints_of(model.centroids@[k]@), ints_of(model.centroids@[k]@))
            == 0,
        distance_spec(
            model.distance,
            ints_of(model.centroids@[k]@),
            ints_of(model.centroids@[1 - k]@),
        ) >= 1,
        k == 0 ==> 2 * share0_adj(
            0,
            distance_spec(
                model.distance,
                ints_of(model.centroids@[0]@),
                ints_of(model.centroids@[1]@),
            ),
        ) > BP_FULL,
        k == 1 ==> 2 * share0_adj(
            distance_spec(
                model.distance,
                ints_of(model.centroids@[1]@),
                ints_of(model.centroids@[0]@),
            ),
            0,
        ) < BP_FULL,
        SCALE * (SCALE + distance_spec(
            model.distance,
            ints_of(model.centroids@[k]@),
            ints_of(model.centroids@[1 - k]@),
        )) > SCALE * (SCALE + 0),
{
    let a = ints_of(model.centroids@[k]@);
    let b = ints_of(model.centroids@[1 - k]@);
    lemma_distance_self_zero(model.distance, a);
    lemma_distance_positive(model.distance, a, b);
    let d = distance_spec(model.distance, a, b);
    lemma_similarity_monotone(0, d);
    if k == 0 {
        lemma_share_adj_bounds(0, d);
    } else {
        lemma_share_adj_bounds(d, 0);
    }
}

/// The unadjusted share sides with the nearer centroid: at least half of the
/// scale when the first distance is no larger, at most half when it is no
/// smaller, and exactly half when the distances are equal.
pub proof fn lemma_share_order(d0: int, d1: int)
    requires
        d0 >= 0,
        d1 >= 0,
    ensures
        d0 <= d1 ==> 2 * share0_bp(d0, d1) >= BP_FULL,
        d0 >= d1 ==> 2 * share0_bp(d0, d1) <= BP_FULL,
        d0 == d1 ==> share0_bp(d0, d1) == BP_FULL / 2,
{
    let num = BP_FULL * (SCALE + d1);
    let den = 2 * SCALE + d0 + d1;
    let half = BP_FULL / 2;
    if d0 <= d1 {
        assert(num >= half * den) by (nonlinear_arith)
            requires
                num == BP_FULL * (SCALE + d1),
                den == 2 * SCALE + d0 + d1,
                half == BP_FULL / 2,
                BP_FULL == 10_000,
                SCALE == 1_000_000,
                0 <= d0 <= d1,
        ;
        vstd::arithmetic::div_mod::lemma_div_is_ordered(half * den, num, den);
        vstd::arithmetic::div_mod::lemma_div_by_multiple(half, den);
    }
    if d0 >= d1 {
        assert(num <= half * den) by (nonlinear_arith)
            requires
                num == BP_FULL * (SCALE + d1),
                den == 2 * SCALE + d0 + d1,
                half == BP_FULL / 2,
                BP_FULL == 10_000,
                SCALE == 1_000_000,
                0 <= d1 <= d0,
        ;
        vstd::arithmetic::div_mod::lemma_div_is_ordered(num, half * den, den);
        vstd::arithmetic::div_mod::lemma_div_by_multiple(half, den);
    }
}

/// The reported (tie-broken) share stays within the scale and orders strictly
/// with the distances.
pub proof fn lemma_share_adj_bounds(d0: int, d1: int)
    requires
        d0 >= 0,
        d1 >= 0,
    ensures
        0 <= share0_adj(d0, d1) <= BP_FULL,
        d0 < d1 ==> 2 * share0_adj(d0, d1) > BP_FULL,
        d0 > d1 ==> 2 * share0_adj(d0, d1) < BP_FULL,
        d0 == d1 ==> share0_adj(d0, d1) == BP_FULL / 2,
{
    lemma_share_bounds(d0, d1);
    lemma_share_order(d0, d1);
}

} // verus!
