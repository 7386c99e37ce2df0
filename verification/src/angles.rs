//! Angles in hundredths of a degree, and the paddle-bounce deflection that
//! maps a contact point along a paddle's span to a reflection angle.

use vstd::prelude::*;
use crate::fixed::{in_calc_range, tdiv, RANGE};

verus! {

/// A full turn, in hundredths of a degree.
pub const FULL_TURN: i64 = 36_000;

/// Half a turn, in hundredths of a degree.
pub const HALF_TURN: i64 = 18_000;

/// The deflection of a ball that struck a paddle spanning `[lo, lo + len]`
/// at coordinate `contact`: a linear ramp from `-half_range` at the low end
/// through zero at the centre to `+half_range` at the high end.
pub open spec fn deflection_spec(contact: int, lo: int, len: int, half_range: int) -> int {
    tdiv((2 * (contact - lo) - len) * half_range, len)
}

/// Compute the bounce deflection angle for a contact point on a paddle.
pub fn bounce_deflection(contact: i64, lo: i64, len: i64, half_range: i64) -> (a: i64)
    requires
        in_calc_range(contact as int),
        in_calc_range(lo as int),
        0 < len <= RANGE,
        0 <= half_range <= FULL_TURN,
    ensures
        a == deflection_spec(contact as int, lo as int, len as int, half_range as int),
        lo <= contact <= lo + len ==> -half_range <= a <= half_range,
        -32 * RANGE * FULL_TURN <= a <= 32 * RANGE * FULL_TURN,
{
    let off = 2 * (contact - lo) - len;
    proof {
        assert(-(32 * RANGE * FULL_TURN) <= off as int * half_range as int <= 32 * RANGE
            * FULL_TURN) by (nonlinear_arith)
            requires
                -32 * RANGE <= off <= 32 * RANGE,
                0 <= half_range <= FULL_TURN,
        ;
        crate::fixed::lemma_tdiv_bounds(
            off as int * half_range as int,
            len as int,
            32 * RANGE as int * FULL_TURN as int,
        );
        if lo <= contact <= lo + len {
            assert(-(half_range as int * len as int) <= off as int * half_range as int
                <= half_range as int * len as int) by (nonlinear_arith)
                requires
                    -len <= off <= len,
                    0 <= half_range,
                    0 < len,
            ;
            crate::fixed::lemma_tdiv_quotient_bound(
                off as int * half_range as int,
                len as int,
                half_range as int,
            );
        }
    }
    let num = off * half_range;
    crate::fixed::tdiv_exec(num, len)
}

/// The three pinned points of the deflection ramp: dead centre of the
/// paddle gives no deflection, and either extremity gives exactly the
/// configured half-range.
pub proof fn lemma_deflection_extremes(lo: int, len: int, half_range: int)
    requires
        0 < len,
        len % 2 == 0,
        0 <= half_range,
    ensures
        deflection_spec(lo + len / 2, lo, len, half_range) == 0,
        deflection_spec(lo, lo, len, half_range) == -half_range,
        deflection_spec(lo + len, lo, len, half_range) == half_range,
{
    assert(2 * (lo + len / 2 - lo) - len == 0);
    assert(0 * half_range == 0) by (nonlinear_arith);
    vstd::arithmetic::div_mod::lemma_div_of0(len);

    assert(2 * (lo + len - lo) - len == len);
    vstd::arithmetic::div_mod::lemma_div_multiples_vanish(half_range, len);
    assert(len * half_range == half_range * len) by (nonlinear_arith);

    assert(2 * (lo - lo) - len == -len);
    assert((-len) * half_range == -(len * half_range)) by (nonlinear_arith);
    if half_range == 0 {
        vstd::arithmetic::div_mod::lemma_div_of0(len);
    } else {
        assert(len * half_range > 0) by (nonlinear_arith)
            requires
                len > 0,
                half_range > 0,
        ;
    }
}

} // verus!
