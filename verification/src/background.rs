//! The scrolling starfield behind the arena.
//!
//! A fixed-size population of star positions follows the camera: stars are
//! generated inside (or, once the field is established, just outside) a
//! window around the camera, and stars left too far behind are dropped.

use vstd::prelude::*;
use crate::fixed::clamp_add;
use crate::fixed::dist_sq;
use crate::fixed::dist_sq_milli;
use crate::fixed::COORD_LIMIT;
use crate::rng::random_in_range;

verus! {

/// Half-width of the star window around the camera, in milli-units.
pub const STAR_WINDOW: i64 = 8_000_000;

/// Clearance around the camera for off-screen generation, squared, in
/// milli-units squared.
pub const STAR_CLEARANCE_SQUARED: i128 = 30_250_000_000_000;

/// Distance past which a star is dropped, squared, in milli-units squared.
pub const STAR_DROP_SQUARED: i128 = 64_000_000_000_000;

/// How many random samples one off-screen pass may draw before giving up.
pub const STAR_ATTEMPT_LIMIT: usize = 100_000;

/// A star's polygon, in milli render units.
pub open spec fn star_shape() -> Seq<i64> {
    seq![0i64, -8i64, 8i64, 0i64, -8i64, 0i64, -8i64, 0i64, 8i64, 0i64, 0i64, 8i64]
}

/// A star's color, in milli RGB.
pub open spec fn star_color() -> Seq<i64> {
    seq![500i64, 500i64, 400i64]
}

/// One renderable star.
#[derive(Clone, Debug, PartialEq)]
pub struct BackgroundElement {
    pub shape: Vec<i64>,
    pub color: Vec<i64>,
    pub x: i64,
    pub y: i64,
}

/// The star population.
#[derive(Clone, Debug, PartialEq)]
pub struct Background {
    pub num: usize,
    pub stars: Vec<(i64, i64)>,
}

/// Whether the star `p` lies within the drop distance of the camera.
pub open spec fn star_kept(p: (i64, i64), cam: (i64, i64)) -> bool {
    dist_sq(cam.0 as int, cam.1 as int, p.0 as int, p.1 as int) <= STAR_DROP_SQUARED as int
}

/// Whether the star `p` sits inside the window around the camera but
/// beyond the visible clearance.
pub open spec fn star_offscreen(p: (i64, i64), cam: (i64, i64)) -> bool {
    &&& cam.0 - STAR_WINDOW <= p.0 <= cam.0 + STAR_WINDOW
    &&& cam.1 - STAR_WINDOW <= p.1 <= cam.1 + STAR_WINDOW
    &&& dist_sq(cam.0 as int, cam.1 as int, p.0 as int, p.1 as int)
        > STAR_CLEARANCE_SQUARED as int
}

impl Background {
    /// Every star sits on the modelled board.
    pub open spec fn wf(&self) -> bool {
        forall|k: int|
            0 <= k < self.stars@.len()
                ==> -COORD_LIMIT <= (#[trigger] self.stars@[k]).0 <= COORD_LIMIT
                    && -COORD_LIMIT <= self.stars@[k].1 <= COORD_LIMIT
    }

    /// An empty field sized for its standing population.
    pub fn new() -> (b: Background)
        ensures
            b.wf(),
            b.num == 20,
            b.stars@.len() == 0,
    {
        Background { num: 20, stars: Vec::new() }
    }

    /// The renderable elements, one per star, in order.
    pub fn get(&self) -> (r: Vec<BackgroundElement>)
        ensures
            r@.len() == self.stars@.len(),
            forall|k: int|
                0 <= k < r@.len()
                    ==> (#[trigger] r@[k]).x == self.stars@[k].0 && r@[k].y == self.stars@[k].1
                        && r@[k].shape@ == star_shape() && r@[k].color@ == star_color(),
    {
        let mut output: Vec<BackgroundElement> = Vec::new();
        let mut i: usize = 0;
        while i < self.stars.len()
            invariant
                0 <= i <= self.stars@.len(),
                output@.len() == i,
                forall|k: int|
                    0 <= k < i
                        ==> (#[trigger] output@[k]).x == self.stars@[k].0
                            && output@[k].y == self.stars@[k].1
                            && output@[k].shape@ == star_shape()
                            && output@[k].color@ == star_color(),
            decreases self.stars@.len() - i,
        {
            let (x, y) = self.stars[i];
            let shape: Vec<i64> = vec![0, -8, 8, 0, -8, 0, -8, 0, 8, 0, 0, 8];
            let color: Vec<i64> = vec![500, 500, 400];
            proof {
                assert(shape@ =~= star_shape());
                assert(color@ =~= star_color());
            }
            output.push(BackgroundElement { shape, color, x, y });
            i = i + 1;
        }
        output
    }

    /// Fills the field up to its standing population with stars anywhere in
    /// the window around the camera.
    pub fn generate(&mut self, cam: (i64, i64))
        requires
            old(self).wf(),
            -COORD_LIMIT <= cam.0 <= COORD_LIMIT,
            -COORD_LIMIT <= cam.1 <= COORD_LIMIT,
        ensures
            final(self).wf(),
            final(self).num == old(self).num,
            old(self).stars@.is_prefix_of(final(self).stars@),
            final(self).stars@.len() == if old(self).stars@.len() >= old(self).num {
                old(self).stars@.len() as int
            } else {
                old(self).num as int
            },
    {
        let (cx, cy) = cam;
        while self.stars.len() < self.num
            invariant
                self.wf(),
                self.num == old(self).num,
                old(self).stars@.is_prefix_of(self.stars@),
                self.stars@.len() <= if old(self).stars@.len() >= old(self).num {
                    old(self).stars@.len() as int
                } else {
                    old(self).num as int
                },
                -COORD_LIMIT <= cx <= COORD_LIMIT,
                -COORD_LIMIT <= cy <= COORD_LIMIT,
            decreases self.num - self.stars@.len(),
        {
            let ghost pre = self.stars@;
            let x = clamp_add(cx, random_in_range(-STAR_WINDOW, STAR_WINDOW), COORD_LIMIT);
            let y = clamp_add(cy, random_in_range(-STAR_WINDOW, STAR_WINDOW), COORD_LIMIT);
            self.stars.push((x, y));
            proof {
                assert(pre.is_prefix_of(self.stars@));
            }
        }
    }

    /// Fills the field up to its standing population with stars in the
    /// window around the camera but outside the visible clearance, so fresh
    /// stars never pop into view.  Bounded by an attempt budget.
    pub fn offscreen_generate(&mut self, cam: (i64, i64))
        requires
            old(self).wf(),
            -COORD_LIMIT <= cam.0 <= COORD_LIMIT,
            -COORD_LIMIT <= cam.1 <= COORD_LIMIT,
        ensures
            final(self).wf(),
            final(self).num == old(self).num,
            old(self).stars@.is_prefix_of(final(self).stars@),
            final(self).stars@.len() <= if old(self).stars@.len() >= old(self).num {
                old(self).stars@.len() as int
            } else {
                old(self).num as int
            },
            forall|k: int|
                old(self).stars@.len() <= k < final(self).stars@.len()
                    ==> star_offscreen(#[trigger] final(self).stars@[k], cam),
    {
        let (cx, cy) = cam;
        let mut attempts: usize = 0;
        while self.stars.len() < self.num && attempts < STAR_ATTEMPT_LIMIT
            invariant
                self.wf(),
                self.num == old(self).num,
                old(self).stars@.is_prefix_of(self.stars@),
                self.stars@.len() <= if old(self).stars@.len() >= old(self).num {
                    old(self).stars@.len() as int
                } else {
                    old(self).num as int
                },
                cam == (cx, cy),
                -COORD_LIMIT <= cx <= COORD_LIMIT,
                -COORD_LIMIT <= cy <= COORD_LIMIT,
                0 <= attempts <= STAR_ATTEMPT_LIMIT,
                forall|k: int|
                    old(self).stars@.len() <= k < self.stars@.len()
                        ==> star_offscreen(#[trigger] self.stars@[k], cam),
            decreases STAR_ATTEMPT_LIMIT - attempts,
        {
            let ghost pre = self.stars@;
            attempts = attempts + 1;
            let x = clamp_add(cx, random_in_range(-STAR_WINDOW, STAR_WINDOW), COORD_LIMIT);
            let y = clamp_add(cy, random_in_range(-STAR_WINDOW, STAR_WINDOW), COORD_LIMIT);
            let distance_squared = dist_sq_milli(cx, cy, x, y);
            if distance_squared > STAR_CLEARANCE_SQUARED {
                self.stars.push((x, y));
                proof {
                    assert(pre.is_prefix_of(self.stars@));
                    assert forall|k: int|
                        old(self).stars@.len() <= k < self.stars@.len()
                        implies star_offscreen(#[trigger] self.stars@[k], cam) by {
                        if k < pre.len() {
                            assert(self.stars@[k] == pre[k]);
                        } else {
                            assert(self.stars@[k] == (x, y));
                        }
                    }
                }
            }
        }
    }

    /// Drops every star that fell too far behind the camera; all stars
    /// within the drop distance survive.
    pub fn cleanup(&mut self, cam: (i64, i64))
        requires
            old(self).wf(),
            -COORD_LIMIT <= cam.0 <= COORD_LIMIT,
            -COORD_LIMIT <= cam.1 <= COORD_LIMIT,
        ensures
            final(self).wf(),
            final(self).num == old(self).num,
            forall|k: int|
                0 <= k < final(self).stars@.len()
                    ==> old(self).stars@.contains(#[trigger] final(self).stars@[k])
                        && star_kept(final(self).stars@[k], cam),
            forall|k: int|
                0 <= k < old(self).stars@.len() && star_kept(#[trigger] old(self).stars@[k], cam)
                    ==> final(self).stars@.contains(old(self).stars@[k]),
    {
        let (cx, cy) = cam;
        let ghost orig = old(self).stars@;
        let mut output: Vec<(i64, i64)> = Vec::new();
        let mut i: usize = 0;
        while i < self.stars.len()
            invariant
                0 <= i <= self.stars@.len(),
                self.stars@ == orig,
                self.wf(),
                -COORD_LIMIT <= cx <= COORD_LIMIT,
                -COORD_LIMIT <= cy <= COORD_LIMIT,
                forall|k: int|
                    0 <= k < output@.len()
                        ==> orig.contains(#[trigger] output@[k])
                            && star_kept(output@[k], (cx, cy))
                            && -COORD_LIMIT <= output@[k].0 <= COORD_LIMIT
                            && -COORD_LIMIT <= output@[k].1 <= COORD_LIMIT,
                forall|k: int|
                    0 <= k < i && star_kept(#[trigger] orig[k], (cx, cy))
                        ==> output@.contains(orig[k]),
            decreases self.stars@.len() - i,
        {
            let ghost pre_output = output@;
            let (x, y) = self.stars[i];
            let distance_squared = dist_sq_milli(cx, cy, x, y);
            if distance_squared <= STAR_DROP_SQUARED {
                output.push((x, y));
                proof {
                    assert(output@.last() == orig[i as int]);
                    assert(orig.contains(orig[i as int]));
                }
            }
            proof {
                assert forall|k: int|
                    0 <= k < i + 1 && star_kept(#[trigger] orig[k], (cx, cy))
                    implies output@.contains(orig[k]) by {
                    if k < i {
                        let l = choose|l: int|
                            0 <= l < pre_output.len() && pre_output[l] == orig[k];
                        assert(output@[l] == orig[k]);
                    } else {
                        assert(output@[output@.len() - 1] == orig[k]);
                    }
                }
                assert forall|k: int| 0 <= k < output@.len() implies orig.contains(
                    #[trigger] output@[k],
                ) && star_kept(output@[k], (cx, cy))
                    && -COORD_LIMIT <= output@[k].0 <= COORD_LIMIT
                    && -COORD_LIMIT <= output@[k].1 <= COORD_LIMIT by {
                    if k < pre_output.len() {
                        assert(output@[k] == pre_output[k]);
                    } else {
                        assert(output@[k] == orig[i as int]);
                    }
                }
            }
            i = i + 1;
        }
        self.stars = output;
    }
}

} // verus!
