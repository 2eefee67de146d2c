//! Linear maps between ranges, rounded down to whole steps.
use vstd::prelude::*;

verus! {

/// The quotient `n / d` rounded toward minus infinity, for `d != 0`.
pub open spec fn floor_div(n: int, d: int) -> int {
    if d > 0 {
        n / d
    } else {
        (-n) / (-d)
    }
}

/// The value `val` carried from the range `in_min..in_max` onto the range
/// `out_min..out_max` along a straight line, rounded down. Nothing clamps it:
/// a value outside the input range lands outside the output range.
pub open spec fn linear_map(val: int, in_min: int, in_max: int, out_min: int, out_max: int) -> int {
    out_min + floor_div((val - in_min) * (out_max - out_min), in_max - in_min)
}

/// `q` is the floor of `n / d` exactly when `n` lies between `q * d` and
/// `(q + 1) * d`, the first included.
pub proof fn lemma_floor_div_unique(n: int, d: int, q: int)
    by (nonlinear_arith)
    requires
        d != 0,
    ensures
        d > 0 ==> (q == floor_div(n, d) <==> q * d <= n < q * d + d),
        d < 0 ==> (q == floor_div(n, d) <==> q * d + d < n <= q * d),
{
}

/// A floor quotient is no larger in size than its numerator.
pub proof fn lemma_floor_div_bounds(n: int, d: int)
    by (nonlinear_arith)
    requires
        d != 0,
    ensures
        n >= 0 ==> -n <= floor_div(n, d) <= n,
        n < 0 ==> n <= floor_div(n, d) <= -n,
{
}

/// Over a positive divisor the floor quotient grows with the numerator.
pub proof fn lemma_floor_div_monotone(n1: int, n2: int, d: int)
    by (nonlinear_arith)
    requires
        d > 0,
        n1 <= n2,
    ensures
        floor_div(n1, d) <= floor_div(n2, d),
{
}

/// A multiple of the divisor divides without remainder.
pub proof fn lemma_floor_div_exact(k: int, d: int)
    requires
        d != 0,
    ensures
        floor_div(k * d, d) == k,
{
    lemma_floor_div_unique(k * d, d, k);
}

/// Equal fractions scale alike: where `n1 / d1` and `n2 / d2` are the same
/// fraction, the floor of `w` times the one is the floor of `w` times the
/// other.
pub proof fn lemma_floor_div_same_fraction(n1: int, d1: int, n2: int, d2: int, w: int)
    requires
        d1 != 0,
        d2 != 0,
        n1 * d2 == n2 * d1,
    ensures
        floor_div(n1 * w, d1) == floor_div(n2 * w, d2),
{
    let q = floor_div(n1 * w, d1);
    lemma_floor_div_unique(n1 * w, d1, q);
    assert(d2 > 0 ==> q * d2 <= n2 * w < q * d2 + d2) by (nonlinear_arith)
        requires
            d1 != 0,
            d2 != 0,
            n1 * d2 == n2 * d1,
            d1 > 0 ==> q * d1 <= n1 * w < q * d1 + d1,
            d1 < 0 ==> q * d1 + d1 < n1 * w <= q * d1,
    ;
    assert(d2 < 0 ==> q * d2 + d2 < n2 * w <= q * d2) by (nonlinear_arith)
        requires
            d1 != 0,
            d2 != 0,
            n1 * d2 == n2 * d1,
            d1 > 0 ==> q * d1 <= n1 * w < q * d1 + d1,
            d1 < 0 ==> q * d1 + d1 < n1 * w <= q * d1,
    ;
    lemma_floor_div_unique(n2 * w, d2, q);
}

/// The start of the input range lands on the start of the output range, and
/// the end on the end.
pub proof fn lemma_linear_map_endpoints(in_min: int, in_max: int, out_min: int, out_max: int)
    requires
        in_min != in_max,
    ensures
        linear_map(in_min, in_min, in_max, out_min, out_max) == out_min,
        linear_map(in_max, in_min, in_max, out_min, out_max) == out_max,
{
    let d = in_max - in_min;
    let r = out_max - out_min;
    assert((in_min - in_min) * r == 0 * d) by (nonlinear_arith);
    lemma_floor_div_exact(0, d);
    assert(d * r == r * d) by (nonlinear_arith);
    lemma_floor_div_exact(r, d);
}

/// Over a rising input range, a rising output range gives a map that never
/// falls as the value grows, and a falling output range one that never
/// rises.
pub proof fn lemma_linear_map_monotone(
    v1: int,
    v2: int,
    in_min: int,
    in_max: int,
    out_min: int,
    out_max: int,
)
    requires
        in_min < in_max,
        v1 <= v2,
    ensures
        out_min <= out_max ==> linear_map(v1, in_min, in_max, out_min, out_max) <= linear_map(
            v2,
            in_min,
            in_max,
            out_min,
            out_max,
        ),
        out_min >= out_max ==> linear_map(v1, in_min, in_max, out_min, out_max) >= linear_map(
            v2,
            in_min,
            in_max,
            out_min,
            out_max,
        ),
{
    let d = in_max - in_min;
    let r = out_max - out_min;
    let a1 = v1 - in_min;
    let a2 = v2 - in_min;
    if r >= 0 {
        assert(a1 * r <= a2 * r) by (nonlinear_arith)
            requires
                a1 <= a2,
                r >= 0,
        ;
        lemma_floor_div_monotone(a1 * r, a2 * r, d);
    }
    if r <= 0 {
        assert(a2 * r <= a1 * r) by (nonlinear_arith)
            requires
                a1 <= a2,
                r <= 0,
        ;
        lemma_floor_div_monotone(a2 * r, a1 * r, d);
    }
}

/// The floor of `n / d`, for operands well inside 128 bits.
fn floor_quotient(n: i128, d: i128) -> (q: i128)
    requires
        d != 0,
        -0x1_0000_0000_0000_0000_0000 < n < 0x1_0000_0000_0000_0000_0000,
        -0x1_0000_0000_0000_0000_0000 < d < 0x1_0000_0000_0000_0000_0000,
    ensures
        q == floor_div(n as int, d as int),
{
    let (top, bottom): (i128, i128) = if d > 0 {
        (n, d)
    } else {
        (-n, -d)
    };
    if top >= 0 {
        top / bottom
    } else {
        let below: i128 = (-top - 1) / bottom;
        proof {
            lemma_floor_div_unique(-top - 1, bottom as int, below as int);
            assert((-below - 1) * bottom == -(below * bottom) - bottom) by (nonlinear_arith);
            lemma_floor_div_unique(top as int, bottom as int, -below - 1);
        }
        -below - 1
    }
}

/// Whether `map_range` can carry `val` in 64-bit arithmetic: the input range
/// is not empty, and the scaled offset and the result fit.
pub open spec fn map_range_fits(val: int, in_min: int, in_max: int, out_min: int, out_max: int) -> bool {
    &&& in_min != in_max
    &&& i64::MIN <= (val - in_min) * (out_max - out_min) <= i64::MAX
    &&& i64::MIN <= linear_map(val, in_min, in_max, out_min, out_max) <= i64::MAX
}

/// Maps `val` from the range `in_min..in_max` onto the range
/// `out_min..out_max`, rounding down.
pub fn map_range(val: i64, in_min: i64, in_max: i64, out_min: i64, out_max: i64) -> (r: i64)
    requires
        map_range_fits(val as int, in_min as int, in_max as int, out_min as int, out_max as int),
    ensures
        r == linear_map(val as int, in_min as int, in_max as int, out_min as int, out_max as int),
{
    let offset: i128 = val as i128 - in_min as i128;
    let rise: i128 = out_max as i128 - out_min as i128;
    let span: i128 = in_max as i128 - in_min as i128;
    let scaled: i128 = offset * rise;
    let moved: i128 = floor_quotient(scaled, span);
    (out_min as i128 + moved) as i64
}

} // verus!
