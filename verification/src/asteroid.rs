//! The asteroid: a drifting rock that fragments on impact.
//!
//! It gets a random constant linear and angular velocity at spawn and takes
//! no control.  On a collide instruction it always explodes; if its size is
//! above the split threshold it additionally asks the manager for a split.

use vstd::prelude::*;
use crate::actor::Actor;
use crate::actor::ActorView;
use crate::actor::CollisionType;
use crate::actor::ViewModel;
use crate::actor::SIZE_LIMIT;
use crate::fixed::clamp_add;
use crate::fixed::clamped;
use crate::fixed::COORD_LIMIT;
use crate::messages::GameInstructions;
use crate::messages::PlayerInstructions;
use crate::rng::random_in_range;
use crate::trig::wrap_deg;
use crate::trig::wrap_deg_milli;

verus! {

/// An asteroid wider than this many milli-units splits when hit.
pub const SPLIT_THRESHOLD: i64 = 100_000;

/// The asteroid's polygon for half-extent `d` milli-units, in milli render
/// units: an octagon with outer radius `d / 2000` and inner radius half that.
pub open spec fn asteroid_shape(d: i64) -> Seq<i64> {
    let mx = d as int / 2000;
    let mn = mx / 2;
    seq![
        -mn, mx, mn, mx, mx, 0,
        mx, 0, mn, -mx, -mn, -mx,
        -mn, -mx, -mx, 0, -mn, mx,
        -mn, mx, mx, 0, -mn, -mx,
    ].map_values(|v: int| v as i64)
}

/// The asteroid's color, in milli RGB.
pub open spec fn asteroid_color() -> Seq<i64> {
    seq![400i64, 300i64, 300i64]
}

/// A drifting asteroid.
#[derive(Clone, Copy, Debug, PartialEq)]
pub struct Asteroid {
    pub id: i32,
    pub x: i64,
    pub y: i64,
    pub rotation: i64,
    pub is_alive: bool,
    pub r_speed: i64,
    pub vx: i64,
    pub vy: i64,
    pub width: i64,
    pub parent: i32,
}

impl Asteroid {
    /// Creates an asteroid at `(x, y)` milli-units with a random size.
    pub fn new(id: i32, x: i64, y: i64) -> (a: Asteroid)
        requires
            -COORD_LIMIT <= x <= COORD_LIMIT,
            -COORD_LIMIT <= y <= COORD_LIMIT,
        ensures
            a.wf(),
            a.alive(),
            a.id == id,
            a.x == x,
            a.y == y,
            a.parent == 0,
            40_000 <= a.width < 180_000,
    {
        let d = random_in_range(40_000, 180_000);
        Asteroid::new_with_d(id, x, y, d, 0)
    }

    /// Creates an asteroid of half-extent `d` milli-units with random linear
    /// and angular velocity.
    pub fn new_with_d(id: i32, x: i64, y: i64, d: i64, parent: i32) -> (a: Asteroid)
        requires
            -COORD_LIMIT <= x <= COORD_LIMIT,
            -COORD_LIMIT <= y <= COORD_LIMIT,
            0 <= d <= SIZE_LIMIT,
        ensures
            a.wf(),
            a.alive(),
            a.id == id,
            a.x == x,
            a.y == y,
            a.width == d,
            a.parent == parent,
            a.rotation == 0,
            -5000 <= a.r_speed < 5000,
            -30_000 <= a.vx < 30_000,
            -30_000 <= a.vy < 30_000,
    {
        let r = random_in_range(-5000, 5000);
        let vx = random_in_range(-30_000, 30_000);
        let vy = random_in_range(-30_000, 30_000);
        Asteroid {
            id,
            x,
            y,
            rotation: 0,
            is_alive: true,
            r_speed: r,
            vx,
            vy,
            width: d,
            parent,
        }
    }
}

impl Actor for Asteroid {
    open spec fn view(&self) -> ViewModel {
        ViewModel {
            id: self.id,
            parent: self.parent,
            x: self.x,
            y: self.y,
            width: self.width,
            height: self.width,
            rotation: self.rotation,
            shape: asteroid_shape(self.width),
            color: asteroid_color(),
            collision_type: CollisionType::Collide,
            show_secondary: false,
            secondary_shape: None,
            secondary_color: None,
            meter: 0,
        }
    }

    open spec fn alive(&self) -> bool {
        self.is_alive
    }

    open spec fn wf(&self) -> bool {
        &&& -COORD_LIMIT <= self.x <= COORD_LIMIT
        &&& -COORD_LIMIT <= self.y <= COORD_LIMIT
        &&& 0 <= self.rotation < 360000
        &&& -5000 <= self.r_speed < 5000
        &&& -30_000 <= self.vx < 30_000
        &&& -30_000 <= self.vy < 30_000
        &&& 0 <= self.width <= SIZE_LIMIT
    }

    open spec fn updated(pre: Self, post: Self, emitted: Seq<(GameInstructions, ActorView)>) -> bool {
        &&& emitted.len() == 0
        &&& post == (Asteroid {
            x: clamped(pre.x as int, pre.vx as int, COORD_LIMIT as int) as i64,
            y: clamped(pre.y as int, pre.vy as int, COORD_LIMIT as int) as i64,
            rotation: wrap_deg(pre.rotation + pre.r_speed) as i64,
            ..pre
        })
    }

    open spec fn executed(
        pre: Self,
        msg: PlayerInstructions,
        post: Self,
        emitted: Seq<(GameInstructions, ActorView)>,
    ) -> bool {
        if msg == PlayerInstructions::Collide {
            &&& post == (Asteroid { is_alive: false, ..pre })
            &&& if pre.width > SPLIT_THRESHOLD {
                &&& emitted.len() == 2
                &&& emitted[0].0 == GameInstructions::NewAsteroid
                &&& emitted[0].1@ == pre.view()
                &&& emitted[1].0 == GameInstructions::Explode
                &&& emitted[1].1@ == pre.view()
            } else {
                &&& emitted.len() == 1
                &&& emitted[0].0 == GameInstructions::Explode
                &&& emitted[0].1@ == pre.view()
            }
        } else {
            &&& emitted.len() == 0
            &&& post == pre
        }
    }

    fn update(&mut self, output_messages: &mut Vec<(GameInstructions, ActorView)>) {
        self.x = clamp_add(self.x, self.vx, COORD_LIMIT);
        self.y = clamp_add(self.y, self.vy, COORD_LIMIT);
        self.rotation = wrap_deg_milli(self.rotation + self.r_speed);
        proof {
            assert(final(output_messages)@.subrange(0, old(output_messages)@.len() as int)
                =~= old(output_messages)@);
        }
    }

    fn get_view(&self) -> (v: ActorView) {
        let mx = self.width / 2000;
        let mn = mx / 2;
        let nmx = -mx;
        let nmn = -mn;
        let shape: Vec<i64> = vec![
            nmn, mx, mn, mx, mx, 0,
            mx, 0, mn, nmx, nmn, nmx,
            nmn, nmx, nmx, 0, nmn, mx,
            nmn, mx, mx, 0, nmn, nmx,
        ];
        let color: Vec<i64> = vec![400, 300, 300];
        proof {
            assert(shape@ =~= asteroid_shape(self.width));
            assert(color@ =~= asteroid_color());
        }
        ActorView {
            id: self.id,
            parent: self.parent,
            x: self.x,
            y: self.y,
            width: self.width,
            height: self.width,
            rotation: self.rotation,
            shape,
            color,
            collision_type: CollisionType::Collide,
            show_secondary: false,
            secondary_shape: None,
            secondary_color: None,
            meter: 0,
        }
    }

    fn execute(
        &mut self,
        message: &PlayerInstructions,
        output_messages: &mut Vec<(GameInstructions, ActorView)>,
    ) {
        match message {
            PlayerInstructions::Collide => {
                self.is_alive = false;
                if self.width > SPLIT_THRESHOLD {
                    let v = self.get_view();
                    output_messages.push((GameInstructions::NewAsteroid, v));
                }
                let v = self.get_view();
                output_messages.push((GameInstructions::Explode, v));
            },
            _ => {},
        }
        proof {
            assert(final(output_messages)@.subrange(0, old(output_messages)@.len() as int)
                =~= old(output_messages)@);
        }
    }

    fn kill(&mut self) {
        self.is_alive = false;
    }

    fn get_id(&self) -> (id: i32) {
        self.id
    }

    fn is_alive(&self) -> (a: bool) {
        self.is_alive
    }
}

/// Law: a collide instruction always kills an asteroid and always yields
/// exactly one explode event; an asteroid wider than the split threshold
/// additionally yields exactly one split request before it, both tagged
/// with the asteroid's own snapshot.
pub proof fn lemma_split_on_collide(
    pre: Asteroid,
    post: Asteroid,
    emitted: Seq<(GameInstructions, ActorView)>,
)
    requires
        Asteroid::executed(pre, PlayerInstructions::Collide, post, emitted),
    ensures
        !post.alive(),
        pre.width > SPLIT_THRESHOLD ==> emitted.len() == 2
            && emitted[0].0 == GameInstructions::NewAsteroid
            && emitted[1].0 == GameInstructions::Explode
            && emitted[0].1@ == pre.view() && emitted[1].1@ == pre.view(),
        pre.width <= SPLIT_THRESHOLD ==> emitted.len() == 1
            && emitted[0].0 == GameInstructions::Explode && emitted[0].1@ == pre.view(),
{
}

} // verus!
