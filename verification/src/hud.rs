//! The off-screen indicator's bearing math.
//!
//! For each collectible, the HUD draws a marker along the bearing from the
//! camera to the collectible, at a radial distance wound in from the screen
//! edge until it undercuts the real distance; a collectible on screen pulls
//! its marker almost onto itself.

use vstd::prelude::*;
use crate::actor::ActorView;
use crate::fixed::dist_sq;
use crate::fixed::dist_sq_milli;
use crate::fixed::isqrt128;
use crate::fixed::lemma_sqrt_floor_unique;
use crate::fixed::mul_div_1000;
use crate::fixed::scaled;
use crate::fixed::sqrt_floor;
use crate::fixed::COORD_LIMIT;
use crate::trig::bearing;
use crate::trig::bearing_milli;
use crate::trig::cos_milli;
use crate::trig::cosine;
use crate::trig::sin_milli;
use crate::trig::sine;

verus! {

/// Where the indicator's radial wind-in starts, in milli-units.
pub const INDICATOR_EDGE: i64 = 1_800_000;

/// How far the wind-in steps each round, in milli-units.
pub const INDICATOR_STEP: i64 = 5_000;

/// How far inside the real distance the wind-in stops, in milli-units.
pub const INDICATOR_PULL: i64 = 100_000;

/// The radial distance after winding `d` in toward `target` step by step.
pub open spec fn wound_in(d: int, target: int) -> int
    decreases d - target + INDICATOR_STEP,
{
    if d > target {
        wound_in(d - INDICATOR_STEP as int, target)
    } else {
        d
    }
}

/// The indicator's radial distance for a collectible whose real distance
/// from the camera is `pd` milli-units.
pub open spec fn indicator_distance(pd: int) -> int {
    wound_in(INDICATOR_EDGE as int, pd - INDICATOR_PULL)
}

/// Computes the marker placement for one collectible: its position in
/// camera space and the bearing from the camera toward it.
pub fn indicator(token: &ActorView, cam: (i64, i64)) -> (r: (i64, i64, i64))
    requires
        token@.wf(),
        -COORD_LIMIT <= cam.0 <= COORD_LIMIT,
        -COORD_LIMIT <= cam.1 <= COORD_LIMIT,
    ensures
        ({
            let pd = sqrt_floor(
                dist_sq(cam.0 as int, cam.1 as int, token@.x as int, token@.y as int),
            );
            let radius = indicator_distance(pd);
            &&& r.2 == bearing(token@.x - cam.0, token@.y - cam.1)
            &&& r.0 == scaled(radius, sine(r.2 as int))
            &&& r.1 == scaled(radius, cosine(r.2 as int))
        }),
{
    let (cx, cy) = cam;
    let dx = token.x - cx;
    let dy = token.y - cy;
    let rotation = bearing_milli(dx, dy);

    let squared = dist_sq_milli(cx, cy, token.x, token.y);
    let wide = isqrt128(squared);
    proof {
        lemma_sqrt_floor_unique(squared as int, wide as int);
    }
    let player_distance: i64 = wide as i64;

    let ghost target = player_distance - INDICATOR_PULL;
    let mut distance: i64 = INDICATOR_EDGE;
    while distance > player_distance - INDICATOR_PULL
        invariant
            wound_in(distance as int, target) == wound_in(INDICATOR_EDGE as int, target),
            target == player_distance - INDICATOR_PULL,
            target >= -INDICATOR_PULL,
            distance <= INDICATOR_EDGE,
            distance == INDICATOR_EDGE || distance > target - INDICATOR_STEP,
        decreases distance - target + INDICATOR_STEP,
    {
        distance = distance - INDICATOR_STEP;
    }

    let sin_b = sin_milli(rotation);
    let cos_b = cos_milli(rotation);
    let x = mul_div_1000(distance, sin_b);
    let y = mul_div_1000(distance, cos_b);
    (x, y, rotation)
}

} // verus!
