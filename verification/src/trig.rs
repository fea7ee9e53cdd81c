//! Integer trigonometry over milli-degrees.
//!
//! Angles are i64 values in thousandths of a degree; sines and cosines are
//! returned in thousandths of a unit.  The sine uses Bhaskara's rational
//! approximation, the arctangent a cubic polynomial correction, both written
//! entirely in integer arithmetic so every result is reproducible and proved
//! in range.

use vstd::prelude::*;
use vstd::arithmetic::div_mod::lemma_div_is_ordered;
use vstd::arithmetic::div_mod::lemma_div_pos_is_pos;
use vstd::arithmetic::div_mod::lemma_div_multiples_vanish;

verus! {

/// Bhaskara's sine approximation on `[0, 180000]` milli-degrees, in
/// thousandths of a unit.
pub open spec fn half_sine(d: int) -> int {
    4000 * (d * (180000 - d)) / (40_500_000_000 - d * (180000 - d))
}

/// The sine of `d` milli-degrees, for `d` in `[0, 360000)`.
pub open spec fn sine(d: int) -> int {
    if d <= 180000 {
        half_sine(d)
    } else {
        -half_sine(d - 180000)
    }
}

/// The cosine of `d` milli-degrees, for `d` in `[0, 360000)`.
pub open spec fn cosine(d: int) -> int {
    if d < 270000 {
        sine(d + 90000)
    } else {
        sine(d - 270000)
    }
}

/// The arctangent of `z / 1000` in milli-degrees, for `z` in `[0, 1000]`.
pub open spec fn arctan_ratio(z: int) -> int {
    45 * z + (z * (1000 - z)) * (14020 + (3800 * z) / 1000) / 1000000
}

/// The bearing of the vector `(dx, dy)` from the positive y axis, in
/// milli-degrees in `[-180000, 180000]`.
pub open spec fn arctan2(dx: int, dy: int) -> int {
    if dx == 0 {
        if dy >= 0 {
            0
        } else {
            180000
        }
    } else if dx > 0 {
        arctan2_right(dx, dy)
    } else {
        -arctan2_right(-dx, dy)
    }
}

/// The bearing for a vector with `ax > 0`, measured clockwise from the
/// positive y axis, in `[0, 180000]`.
pub open spec fn arctan2_right(ax: int, dy: int) -> int {
    if dy > 0 {
        if ax <= dy {
            arctan_ratio(ax * 1000 / dy)
        } else {
            90000 - arctan_ratio(dy * 1000 / ax)
        }
    } else if dy == 0 {
        90000
    } else if ax <= -dy {
        180000 - arctan_ratio(ax * 1000 / (-dy))
    } else {
        90000 + arctan_ratio((-dy) * 1000 / ax)
    }
}

/// The product `d * (180000 - d)` stays within `[0, 8_100_000_000]` on the
/// half turn.
proof fn lemma_half_sine_product(d: int)
    requires
        0 <= d <= 180000,
    ensures
        0 <= d * (180000 - d) <= 8_100_000_000,
{
    assert(0 <= d * (180000 - d)) by (nonlinear_arith)
        requires 0 <= d <= 180000;
    assert(d * (180000 - d) <= 8_100_000_000) by (nonlinear_arith)
        requires 0 <= d <= 180000;
}

/// The half-turn sine lies in `[0, 1000]`.
pub proof fn lemma_half_sine_range(d: int)
    requires
        0 <= d <= 180000,
    ensures
        0 <= half_sine(d) <= 1000,
{
    let p = d * (180000 - d);
    lemma_half_sine_product(d);
    let den = 40_500_000_000 - p;
    lemma_div_pos_is_pos(4000 * p, den);
    assert(4000 * p <= 1000 * den) by (nonlinear_arith)
        requires 0 <= p <= 8_100_000_000 && den == 40_500_000_000 - p;
    lemma_div_is_ordered(4000 * p, 1000 * den, den);
    lemma_div_multiples_vanish(1000, den);
    assert(den * 1000 == 1000 * den) by (nonlinear_arith);
}

/// The sine of any angle lies in `[-1000, 1000]`.
pub proof fn lemma_sine_range(d: int)
    requires
        0 <= d < 360000,
    ensures
        -1000 <= sine(d) <= 1000,
{
    if d <= 180000 {
        lemma_half_sine_range(d);
    } else {
        lemma_half_sine_range(d - 180000);
    }
}

/// The arctangent polynomial lies in `[0, 50000]` on `[0, 1000]`.
pub proof fn lemma_arctan_ratio_range(z: int)
    requires
        0 <= z <= 1000,
    ensures
        0 <= arctan_ratio(z) <= 50000,
{
    let t = 14020 + (3800 * z) / 1000;
    lemma_div_pos_is_pos(3800 * z, 1000);
    lemma_div_is_ordered(3800 * z, 3800000, 1000);
    assert(t <= 17820);
    let q = z * (1000 - z);
    assert(0 <= z * (1000 - z) <= 250000) by (nonlinear_arith)
        requires 0 <= z <= 1000;
    assert(0 <= q * t <= 250000 * 17820) by (nonlinear_arith)
        requires 0 <= q <= 250000 && 0 <= t <= 17820;
    lemma_div_pos_is_pos(q * t, 1000000);
    lemma_div_is_ordered(q * t, 4455000000, 1000000);
}

/// Computes `sine(d)`.
pub fn sin_milli(d: i64) -> (r: i64)
    requires
        0 <= d < 360000,
    ensures
        r == sine(d as int),
        -1000 <= r <= 1000,
{
    proof {
        lemma_sine_range(d as int);
    }
    if d <= 180000 {
        half_sine_exec(d)
    } else {
        -half_sine_exec(d - 180000)
    }
}

/// Computes `cosine(d)`.
pub fn cos_milli(d: i64) -> (r: i64)
    requires
        0 <= d < 360000,
    ensures
        r == cosine(d as int),
        -1000 <= r <= 1000,
{
    if d < 270000 {
        sin_milli(d + 90000)
    } else {
        sin_milli(d - 270000)
    }
}

/// Computes `half_sine(d)`.
fn half_sine_exec(d: i64) -> (r: i64)
    requires
        0 <= d <= 180000,
    ensures
        r == half_sine(d as int),
        0 <= r <= 1000,
{
    proof {
        lemma_half_sine_product(d as int);
        lemma_half_sine_range(d as int);
    }
    let p: i64 = d * (180000 - d);
    let num: i64 = 4000 * p;
    let den: i64 = 40_500_000_000 - p;
    num / den
}

/// Computes `arctan_ratio(z)`.
fn arctan_ratio_exec(z: i64) -> (r: i64)
    requires
        0 <= z <= 1000,
    ensures
        r == arctan_ratio(z as int),
        0 <= r <= 50000,
{
    proof {
        lemma_arctan_ratio_range(z as int);
        lemma_div_pos_is_pos(3800 * z as int, 1000);
        lemma_div_is_ordered(3800 * z as int, 3800000, 1000);
        let q = (z as int) * (1000 - z as int);
        assert(0 <= (z as int) * (1000 - z as int) <= 250000) by (nonlinear_arith)
            requires 0 <= z as int <= 1000;
        assert(0 <= q * (14020 + (3800 * z as int) / 1000) <= 250000 * 17820) by (nonlinear_arith)
            requires 0 <= q <= 250000 && 14020 <= 14020 + (3800 * z as int) / 1000 <= 17820;
    }
    let t: i64 = 14020 + (3800 * z) / 1000;
    let q: i64 = z * (1000 - z);
    45 * z + q * t / 1000000
}

/// The ratio `lo * 1000 / hi` lies in `[0, 1000]` when `0 <= lo <= hi`.
proof fn lemma_ratio_range(lo: int, hi: int)
    requires
        0 <= lo <= hi,
        0 < hi,
    ensures
        0 <= lo * 1000 / hi <= 1000,
{
    lemma_div_pos_is_pos(lo * 1000, hi);
    assert(lo * 1000 <= hi * 1000) by (nonlinear_arith)
        requires 0 <= lo <= hi;
    lemma_div_is_ordered(lo * 1000, hi * 1000, hi);
    lemma_div_multiples_vanish(1000, hi);
}

/// Computes `arctan2_right(ax, dy)`.
fn arctan2_right_exec(ax: i64, dy: i64) -> (r: i64)
    requires
        0 < ax <= 8_000_000_000_000_000,
        -8_000_000_000_000_000 <= dy <= 8_000_000_000_000_000,
    ensures
        r == arctan2_right(ax as int, dy as int),
        0 <= r <= 180000,
{
    if dy > 0 {
        if ax <= dy {
            proof { lemma_ratio_range(ax as int, dy as int); }
            let z = ax * 1000 / dy;
            proof { lemma_arctan_ratio_range(z as int); }
            arctan_ratio_exec(z)
        } else {
            proof { lemma_ratio_range(dy as int, ax as int); }
            let z = dy * 1000 / ax;
            proof { lemma_arctan_ratio_range(z as int); }
            90000 - arctan_ratio_exec(z)
        }
    } else if dy == 0 {
        90000
    } else {
        let ay = -dy;
        if ax <= ay {
            proof { lemma_ratio_range(ax as int, ay as int); }
            let z = ax * 1000 / ay;
            proof { lemma_arctan_ratio_range(z as int); }
            180000 - arctan_ratio_exec(z)
        } else {
            proof { lemma_ratio_range(ay as int, ax as int); }
            let z = ay * 1000 / ax;
            proof { lemma_arctan_ratio_range(z as int); }
            90000 + arctan_ratio_exec(z)
        }
    }
}

/// Computes `arctan2(dx, dy)`.
pub fn atan2_milli(dx: i64, dy: i64) -> (r: i64)
    requires
        -8_000_000_000_000_000 <= dx <= 8_000_000_000_000_000,
        -8_000_000_000_000_000 <= dy <= 8_000_000_000_000_000,
    ensures
        r == arctan2(dx as int, dy as int),
        -180000 <= r <= 180000,
{
    if dx == 0 {
        if dy >= 0 {
            0
        } else {
            180000
        }
    } else if dx > 0 {
        arctan2_right_exec(dx, dy)
    } else {
        -arctan2_right_exec(-dx, dy)
    }
}

/// One wrap-around step folding `r` back into `[0, 360000)`.
pub open spec fn wrap_deg(r: int) -> int {
    if r >= 360000 {
        r - 360000
    } else if r < 0 {
        r + 360000
    } else {
        r
    }
}

/// Computes `wrap_deg(r)` for an angle at most one turn out of range.
pub fn wrap_deg_milli(r: i64) -> (d: i64)
    requires
        -360000 <= r < 720000,
    ensures
        d == wrap_deg(r as int),
        0 <= d < 360000,
{
    if r >= 360000 {
        r - 360000
    } else if r < 0 {
        r + 360000
    } else {
        r
    }
}

/// The bearing of `(dx, dy)` folded into `[0, 360000)` milli-degrees.
pub open spec fn bearing(dx: int, dy: int) -> int {
    if arctan2(dx, dy) < 0 {
        arctan2(dx, dy) + 360000
    } else {
        arctan2(dx, dy)
    }
}

/// Computes `bearing(dx, dy)`.
pub fn bearing_milli(dx: i64, dy: i64) -> (r: i64)
    requires
        -8_000_000_000_000_000 <= dx <= 8_000_000_000_000_000,
        -8_000_000_000_000_000 <= dy <= 8_000_000_000_000_000,
    ensures
        r == bearing(dx as int, dy as int),
        0 <= r < 360000,
{
    let a = atan2_milli(dx, dy);
    if a < 0 {
        a + 360000
    } else {
        a
    }
}

} // verus!
