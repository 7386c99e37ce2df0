//! Fixed-point scale of the board and the few arithmetic helpers the
//! geometry and physics code shares: truncating division by the scale and
//! an integer square root.

use vstd::prelude::*;

verus! {

/// Grid steps per board unit: the board is the square `[0, UNIT] x [0, UNIT]`,
/// one second is `UNIT` ticks, and a unit direction vector has length `UNIT`.
pub const UNIT: i64 = 10_000;

/// Every coordinate, velocity and time delta the library works with stays
/// within this bound; it keeps all intermediate products inside `i64`.
pub const RANGE: i64 = 1_000_000;

/// Is `v` a coordinate, velocity or time delta the library accepts?
pub open spec fn in_range(v: i64) -> bool {
    -RANGE <= v <= RANGE
}

/// The slightly wider band where sums of two in-range values land, such as
/// the far edge of a well-formed rectangle.
pub open spec fn in_ext_range(v: int) -> bool {
    -2 * RANGE <= v <= 2 * RANGE
}

/// The widest band the geometry arithmetic produces: edges and midpoints
/// of well-formed rectangles and their overlaps all land here.
pub open spec fn in_calc_range(v: int) -> bool {
    -4 * RANGE <= v <= 4 * RANGE
}

/// The outermost bound on a body's position.  Collision responses shift
/// positions by small amounts without re-clamping, so positions get far
/// more headroom than the rest of the arithmetic; the next integration
/// step clamps them back into the ordinary bands.
pub const POS_LIMIT: i64 = 100_000_000_000;

/// Is `v` within the outermost position bound?
pub open spec fn in_pos_range(v: int) -> bool {
    -POS_LIMIT <= v <= POS_LIMIT
}

/// A position with enough headroom left for one unclamped integration
/// step in either direction.
pub open spec fn in_drift_range(v: int) -> bool {
    -POS_LIMIT + 200_000_000 <= v <= POS_LIMIT - 200_000_000
}

/// Division that truncates toward zero, the rounding used when a scaled
/// product is brought back onto the grid.  (Spec-level `/` is Euclidean,
/// hence the sign split.)
pub open spec fn tdiv(p: int, d: int) -> int
    recommends
        d > 0,
{
    if p >= 0 {
        p / d
    } else {
        -((-p) / d)
    }
}

/// Truncating division of a scaled product by the grid scale.
pub fn div_unit(p: i64) -> (r: i64)
    requires
        -0x4000_0000_0000_0000 < p < 0x4000_0000_0000_0000,
    ensures
        r == tdiv(p as int, UNIT as int),
{
    if p >= 0 {
        p / UNIT
    } else {
        -((-p) / UNIT)
    }
}

/// Truncating division by an arbitrary positive divisor.
pub fn tdiv_exec(p: i64, d: i64) -> (r: i64)
    requires
        d > 0,
        p > i64::MIN,
    ensures
        r == tdiv(p as int, d as int),
{
    proof {
        if p >= 0 {
            vstd::arithmetic::div_mod::lemma_div_basics_5(p as int, d as int);
        } else {
            vstd::arithmetic::div_mod::lemma_div_basics_5(-(p as int), d as int);
        }
    }
    if p >= 0 {
        p / d
    } else {
        -((-p) / d)
    }
}

/// The midpoint rounding used for rectangle centres.
pub fn half(p: i64) -> (r: i64)
    requires
        -0x4000_0000_0000_0000 < p < 0x4000_0000_0000_0000,
    ensures
        r == tdiv(p as int, 2),
{
    if p >= 0 {
        p / 2
    } else {
        -((-p) / 2)
    }
}

/// Bounds of a product of two in-range values.
pub proof fn lemma_range_mul(a: int, b: int) by (nonlinear_arith)
    requires
        -RANGE <= a <= RANGE,
        -RANGE <= b <= RANGE,
    ensures
        -RANGE * RANGE <= a * b <= RANGE * RANGE,
{
}

/// Truncating division shrinks the magnitude: the quotient stays within
/// every bound the dividend meets.
pub proof fn lemma_tdiv_bounds(p: int, d: int, m: int)
    requires
        d > 0,
        -m <= p <= m,
        0 <= m,
    ensures
        -m <= tdiv(p, d) <= m,
{
    if p >= 0 {
        vstd::arithmetic::div_mod::lemma_div_basics_5(p, d);
    } else {
        vstd::arithmetic::div_mod::lemma_div_basics_5(-p, d);
    }
}

/// A quotient bound from a dividend bound: if `|p| <= k * d` then
/// `|tdiv(p, d)| <= k`.
pub proof fn lemma_tdiv_quotient_bound(p: int, d: int, k: int)
    requires
        d > 0,
        0 <= k,
        -(k * d) <= p <= k * d,
    ensures
        -k <= tdiv(p, d) <= k,
{
    assert(k * d == d * k) by (nonlinear_arith);
    if p >= 0 {
        vstd::arithmetic::div_mod::lemma_div_is_ordered(p, d * k, d);
        vstd::arithmetic::div_mod::lemma_div_multiples_vanish(k, d);
        vstd::arithmetic::div_mod::lemma_div_pos_is_pos(p, d);
    } else {
        vstd::arithmetic::div_mod::lemma_div_is_ordered(-p, d * k, d);
        vstd::arithmetic::div_mod::lemma_div_multiples_vanish(k, d);
        vstd::arithmetic::div_mod::lemma_div_pos_is_pos(-p, d);
    }
}

/// Squares of in-range values are non-negative and bounded.
pub proof fn lemma_square_bounds(a: int) by (nonlinear_arith)
    requires
        -RANGE <= a <= RANGE,
    ensures
        0 <= a * a <= RANGE * RANGE,
{
}

/// `v` scaled by `num / UNIT`, truncated toward zero: one integration or
/// direction-projection step.
pub fn scale(v: i64, num: i64) -> (r: i64)
    requires
        in_range(v),
        in_range(num),
    ensures
        r == tdiv(v as int * num as int, UNIT as int),
        -100_000_000 <= r <= 100_000_000,
{
    proof {
        lemma_range_mul(v as int, num as int);
        let p = v as int * num as int;
        if p >= 0 {
            vstd::arithmetic::div_mod::lemma_div_is_ordered(p, RANGE * RANGE, UNIT as int);
            vstd::arithmetic::div_mod::lemma_div_pos_is_pos(p, UNIT as int);
        } else {
            vstd::arithmetic::div_mod::lemma_div_is_ordered(-p, RANGE * RANGE, UNIT as int);
            vstd::arithmetic::div_mod::lemma_div_pos_is_pos(-p, UNIT as int);
        }
    }
    div_unit(v * num)
}

/// The integer square root: the largest `r` with `r * r <= n`.
pub fn isqrt(n: u64) -> (r: u64)
    requires
        n <= 0x4000_0000_0000_0000,
    ensures
        r * r <= n < (r + 1) * (r + 1),
{
    let mut r: u64 = 0;
    loop
        invariant
            n <= 0x4000_0000_0000_0000,
            r * r <= n,
            r <= n,
            r <= 0x8000_0000,
        ensures
            r * r <= n < (r + 1) * (r + 1),
        decreases n - r,
    {
        proof {
            assert((r + 1) * (r + 1) <= 0xffff_ffff_ffff_ffff) by (nonlinear_arith)
                requires
                    r <= 0x8000_0000,
            ;
        }
        let next = (r + 1) * (r + 1);
        if next > n {
            break;
        }
        r = r + 1;
        assert(r <= 0x8000_0000) by (nonlinear_arith)
            requires
                r * r <= n,
                n <= 0x4000_0000_0000_0000,
        ;
        assert(r <= n) by (nonlinear_arith)
            requires
                r * r <= n,
                r >= 1,
        ;
    }
    r
}

} // verus!
