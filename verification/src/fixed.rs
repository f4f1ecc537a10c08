//! Fixed-point conventions and the two arithmetic helpers the regulator needs.

use vstd::prelude::*;

verus! {

/// Fixed-point steps in one unit: a stored value `v` stands for `v / MICRO`.
pub const MICRO: i64 = 1_000_000;

/// Nanoseconds in one second.
pub const NANOS_PER_SECOND: u64 = 1_000_000_000;

/// `MICRO * NANOS_PER_SECOND`: the divisor that turns a product of two
/// fixed-point values and a duration in nanoseconds back into a fixed-point
/// value.
pub const MICRO_NANOS: u64 = 1_000_000_000_000_000;

/// Quotient of `a` by a positive `b`, rounded toward zero.
pub open spec fn trunc_div(a: int, b: int) -> int
    recommends
        b > 0,
{
    if a >= 0 {
        a / b
    } else {
        -((-a) / b)
    }
}

/// `x` limited to the symmetric range `[-limit, limit]`.
pub open spec fn clamp_sym(x: int, limit: int) -> int
    recommends
        limit >= 0,
{
    if x < -limit {
        -limit
    } else if x > limit {
        limit
    } else {
        x
    }
}

/// Absolute value.
pub open spec fn magnitude(x: int) -> int {
    if x < 0 {
        -x
    } else {
        x
    }
}

/// Rounding toward zero never increases the magnitude, and keeps the sign.
pub proof fn lemma_trunc_div_bounds(a: int, b: int)
    requires
        b > 0,
    ensures
        magnitude(trunc_div(a, b)) <= magnitude(a),
        a >= 0 ==> trunc_div(a, b) >= 0,
        a <= 0 ==> trunc_div(a, b) <= 0,
        trunc_div(-a, b) == -trunc_div(a, b),
{
    let m = magnitude(a);
    assert(0 <= m / b <= m) by (nonlinear_arith)
        requires
            m >= 0,
            b > 0,
    ;
    assert(0int / b == 0) by (nonlinear_arith)
        requires
            b > 0,
    ;
}

/// A clamped value lies within the limit.
pub proof fn lemma_clamp_sym_bounds(x: int, limit: int)
    requires
        limit >= 0,
    ensures
        magnitude(clamp_sym(x, limit)) <= limit,
        magnitude(x) <= limit ==> clamp_sym(x, limit) == x,
{
}

/// Computes [`trunc_div`].
pub fn div_toward_zero(a: i128, b: i128) -> (q: i128)
    requires
        b > 0,
        a > i128::MIN,
    ensures
        q == trunc_div(a as int, b as int),
{
    proof {
        lemma_trunc_div_bounds(a as int, b as int);
    }
    if a >= 0 {
        a / b
    } else {
        let m: i128 = -a;
        let q: i128 = m / b;
        -q
    }
}

/// Computes [`clamp_sym`].
pub fn clamp_to(x: i128, limit: u32) -> (r: i64)
    ensures
        r == clamp_sym(x as int, limit as int),
{
    let l: i128 = limit as i128;
    if x < -l {
        -(limit as i64)
    } else if x > l {
        limit as i64
    } else {
        x as i64
    }
}

} // verus!
