//! Saturating fixed-point arithmetic for the world model.
//!
//! Positions, velocities and sizes are i64 values in milli-units.  Sums that
//! would leave the modelled range saturate at the range's edge, so every
//! arithmetic step of the simulation is free of overflow.

use vstd::prelude::*;

verus! {

/// Largest magnitude a world coordinate can take, in milli-units.
pub const COORD_LIMIT: i64 = 4_000_000_000_000_000;

/// Largest magnitude a velocity component can take, in milli-units per tick.
pub const VEL_LIMIT: i64 = 1_000_000_000_000;

/// The saturating sum of `a` and `b`, clamped to `[-lim, lim]`.
pub open spec fn clamped(a: int, b: int, lim: int) -> int {
    if a + b > lim {
        lim
    } else if a + b < -lim {
        -lim
    } else {
        a + b
    }
}

/// `a * b / 1000`, with the quotient rounded toward zero.
pub open spec fn scaled(a: int, b: int) -> int {
    if a * b >= 0 {
        (a * b) / 1000
    } else {
        -((-(a * b)) / 1000)
    }
}

/// The absolute value of `a`.
pub open spec fn mag(a: int) -> int {
    if a < 0 {
        -a
    } else {
        a
    }
}

/// Adds `a` and `b`, saturating at `-lim` and `lim`.
pub fn clamp_add(a: i64, b: i64, lim: i64) -> (r: i64)
    requires
        0 <= lim,
    ensures
        r == clamped(a as int, b as int, lim as int),
        -lim <= r <= lim || (-lim <= a <= lim && r == a + b),
{
    let s: i128 = (a as i128) + (b as i128);
    if s > (lim as i128) {
        lim
    } else if s < -(lim as i128) {
        -lim
    } else {
        s as i64
    }
}

/// Multiplies `a` by `b` and divides by 1000, rounding toward zero.
pub fn mul_div_1000(a: i64, b: i64) -> (r: i64)
    requires
        mag(a as int) <= 2_000_000_000_000,
        mag(b as int) <= 1_000_000,
    ensures
        r == scaled(a as int, b as int),
        -2_000_000_000_000_000 <= r <= 2_000_000_000_000_000,
{
    proof {
        assert(-2_000_000_000_000_000_000 <= (a as int) * (b as int) <= 2_000_000_000_000_000_000)
            by (nonlinear_arith)
            requires
                -2_000_000_000_000 <= a as int <= 2_000_000_000_000,
                -1_000_000 <= b as int <= 1_000_000;
    }
    let p: i64 = a * b;
    if p >= 0 {
        proof {
            vstd::arithmetic::div_mod::lemma_div_pos_is_pos(p as int, 1000);
            vstd::arithmetic::div_mod::lemma_div_is_ordered(
                p as int,
                2_000_000_000_000_000_000,
                1000,
            );
        }
        p / 1000
    } else {
        proof {
            vstd::arithmetic::div_mod::lemma_div_pos_is_pos(-(p as int), 1000);
            vstd::arithmetic::div_mod::lemma_div_is_ordered(
                -(p as int),
                2_000_000_000_000_000_000,
                1000,
            );
        }
        -((-p) / 1000)
    }
}

/// The squared distance between `(ax, ay)` and `(bx, by)`.
pub open spec fn dist_sq(ax: int, ay: int, bx: int, by: int) -> int {
    (bx - ax) * (bx - ax) + (by - ay) * (by - ay)
}

/// Computes `dist_sq` for on-board coordinates; wide intermediates keep it
/// exact.
pub fn dist_sq_milli(ax: i64, ay: i64, bx: i64, by: i64) -> (d: i128)
    requires
        -COORD_LIMIT <= ax <= COORD_LIMIT,
        -COORD_LIMIT <= ay <= COORD_LIMIT,
        -COORD_LIMIT <= bx <= COORD_LIMIT,
        -COORD_LIMIT <= by <= COORD_LIMIT,
    ensures
        d == dist_sq(ax as int, ay as int, bx as int, by as int),
        0 <= d <= 128_000_000_000_000_000_000_000_000_000_000,
{
    let dx: i128 = (bx as i128) - (ax as i128);
    let dy: i128 = (by as i128) - (ay as i128);
    proof {
        assert(0 <= dx * dx <= 64_000_000_000_000_000_000_000_000_000_000) by (nonlinear_arith)
            requires -8_000_000_000_000_000 <= dx <= 8_000_000_000_000_000;
        assert(0 <= dy * dy <= 64_000_000_000_000_000_000_000_000_000_000) by (nonlinear_arith)
            requires -8_000_000_000_000_000 <= dy <= 8_000_000_000_000_000;
    }
    dx * dx + dy * dy
}

/// The absolute value of `a`, for `a` above the smallest i64.
pub fn abs64(a: i64) -> (r: i64)
    requires
        a != i64::MIN,
    ensures
        r == mag(a as int),
{
    if a < 0 {
        -a
    } else {
        a
    }
}

/// The integer square root of `n`, as a value: the `r` with
/// `r * r <= n < (r + 1) * (r + 1)`.
pub open spec fn sqrt_floor(n: int) -> int {
    choose|r: int| 0 <= r && #[trigger] (r * r) <= n < (r + 1) * (r + 1)
}

/// The integer square root is unique: any root bracket pins `sqrt_floor`.
pub proof fn lemma_sqrt_floor_unique(n: int, r: int)
    requires
        0 <= r,
        r * r <= n,
        (r + 1) * (r + 1) > n,
    ensures
        r == sqrt_floor(n),
{
    let c = sqrt_floor(n);
    assert(0 <= c && c * c <= n < (c + 1) * (c + 1)) by {
        assert(0 <= r && r * r <= n < (r + 1) * (r + 1));
    }
    if c < r {
        assert((c + 1) * (c + 1) <= r * r) by (nonlinear_arith)
            requires 0 <= c < r;
    }
    if r < c {
        assert((r + 1) * (r + 1) <= c * c) by (nonlinear_arith)
            requires 0 <= r < c;
    }
}

/// The integer square root: the largest `r` with `r * r <= n`.
pub fn isqrt128(n: i128) -> (r: i128)
    requires
        0 <= n <= 170_000_000_000_000_000_000_000_000_000_000,
    ensures
        0 <= r <= 14_000_000_000_000_000,
        r * r <= n,
        (r + 1) * (r + 1) > n,
{
    let mut lo: i128 = 0;
    let mut hi: i128 = 14_000_000_000_000_000;
    proof {
        assert((14_000_000_000_000_000 + 1) * (14_000_000_000_000_000 + 1)
            > 170_000_000_000_000_000_000_000_000_000_000) by (nonlinear_arith);
    }
    while lo < hi
        invariant
            0 <= lo <= hi <= 14_000_000_000_000_000,
            lo * lo <= n,
            (hi + 1) * (hi + 1) > n,
        decreases hi - lo,
    {
        let mid: i128 = (lo + hi + 1) / 2;
        proof {
            assert(lo < mid <= hi);
            assert(0 <= mid * mid <= 200_000_000_000_000_000_000_000_000_000_000)
                by (nonlinear_arith)
                requires 0 <= mid <= 14_000_000_000_000_000;
        }
        if mid * mid <= n {
            lo = mid;
        } else {
            hi = mid - 1;
        }
    }
    lo
}

} // verus!
