//! The bullet: a straight-line projectile.
//!
//! Its velocity is fixed at spawn from the firer's rotation and a constant
//! speed; it takes no further control and dies only on collision.

use vstd::prelude::*;
use crate::actor::Actor;
use crate::actor::ActorView;
use crate::actor::CollisionType;
use crate::actor::ViewModel;
use crate::fixed::clamp_add;
use crate::fixed::clamped;
use crate::fixed::COORD_LIMIT;
use crate::fixed::VEL_LIMIT;
use crate::messages::GameInstructions;
use crate::messages::PlayerInstructions;
use crate::trig::cos_milli;
use crate::trig::cosine;
use crate::trig::sin_milli;
use crate::trig::sine;

verus! {

/// The bullet's polygon, in milli render units.
pub open spec fn bullet_shape() -> Seq<i64> {
    seq![0i64, 5i64, 5i64, -5i64, -5i64, -5i64]
}

/// The bullet's color, in milli RGB.
pub open spec fn bullet_color() -> Seq<i64> {
    seq![200i64, 800i64, 200i64]
}

/// The bullet's speed, in milli-units per tick.
pub const BULLET_SPEED: i64 = 100_000;

/// A fired projectile.
#[derive(Clone, Copy, Debug, PartialEq)]
pub struct Bullet {
    pub id: i32,
    pub parent: i32,
    pub x: i64,
    pub y: i64,
    pub vx: i64,
    pub vy: i64,
    pub rotation: i64,
    pub is_alive: bool,
}

impl Bullet {
    /// Creates a bullet at `(x, y)` milli-units flying along `rotation`
    /// milli-degrees at the fixed bullet speed.
    pub fn new(id: i32, parent: i32, x: i64, y: i64, rotation: i64) -> (b: Bullet)
        requires
            -COORD_LIMIT <= x <= COORD_LIMIT,
            -COORD_LIMIT <= y <= COORD_LIMIT,
            0 <= rotation < 360000,
        ensures
            b == (Bullet {
                id,
                parent,
                x,
                y,
                vx: (100 * sine(rotation as int)) as i64,
                vy: (100 * cosine(rotation as int)) as i64,
                rotation,
                is_alive: true,
            }),
            b.wf(),
            b.alive(),
    {
        let vx = 100 * sin_milli(rotation);
        let vy = 100 * cos_milli(rotation);
        Bullet { id, parent, x, y, vx, vy, rotation, is_alive: true }
    }
}

impl Actor for Bullet {
    open spec fn view(&self) -> ViewModel {
        ViewModel {
            id: self.id,
            parent: self.parent,
            x: self.x,
            y: self.y,
            width: 10_000,
            height: 10_000,
            rotation: self.rotation,
            shape: bullet_shape(),
            color: bullet_color(),
            collision_type: CollisionType::Collide,
            show_secondary: false,
            secondary_shape: None,
            secondary_color: None,
            meter: 0,
        }
    }

    open spec fn alive(&self) -> bool {
        self.is_alive
    }

    open spec fn wf(&self) -> bool {
        &&& -COORD_LIMIT <= self.x <= COORD_LIMIT
        &&& -COORD_LIMIT <= self.y <= COORD_LIMIT
        &&& -VEL_LIMIT <= self.vx <= VEL_LIMIT
        &&& -VEL_LIMIT <= self.vy <= VEL_LIMIT
        &&& 0 <= self.rotation < 360000
    }

    open spec fn updated(pre: Self, post: Self, emitted: Seq<(GameInstructions, ActorView)>) -> bool {
        &&& emitted.len() == 0
        &&& post == (Bullet {
            x: clamped(pre.x as int, pre.vx as int, COORD_LIMIT as int) as i64,
            y: clamped(pre.y as int, pre.vy as int, COORD_LIMIT as int) as i64,
            ..pre
        })
    }

    open spec fn executed(
        pre: Self,
        msg: PlayerInstructions,
        post: Self,
        emitted: Seq<(GameInstructions, ActorView)>,
    ) -> bool {
        &&& emitted.len() == 0
        &&& post == (Bullet {
            is_alive: pre.is_alive && msg != PlayerInstructions::Collide,
            ..pre
        })
    }

    fn update(&mut self, output_messages: &mut Vec<(GameInstructions, ActorView)>) {
        self.y = clamp_add(self.y, self.vy, COORD_LIMIT);
        self.x = clamp_add(self.x, self.vx, COORD_LIMIT);
        proof {
            assert(final(output_messages)@.subrange(0, old(output_messages)@.len() as int)
                =~= old(output_messages)@);
        }
    }

    fn get_view(&self) -> (v: ActorView) {
        let shape: Vec<i64> = vec![0, 5, 5, -5, -5, -5];
        let color: Vec<i64> = vec![200, 800, 200];
        proof {
            assert(shape@ =~= bullet_shape());
            assert(color@ =~= bullet_color());
        }
        ActorView {
            id: self.id,
            parent: self.parent,
            x: self.x,
            y: self.y,
            width: 10_000,
            height: 10_000,
            rotation: self.rotation,
            shape,
            color,
            collision_type: CollisionType::Collide,
            show_secondary: false,
            secondary_shape: None,
            secondary_color: None,
            meter: 0,
        }
    }

    fn execute(
        &mut self,
        message: &PlayerInstructions,
        output_messages: &mut Vec<(GameInstructions, ActorView)>,
    ) {
        match message {
            PlayerInstructions::Collide => {
                self.is_alive = false;
            },
            _ => {},
        }
        proof {
            assert(final(output_messages)@.subrange(0, old(output_messages)@.len() as int)
                =~= old(output_messages)@);
        }
    }

    fn kill(&mut self) {
        self.is_alive = false;
    }

    fn get_id(&self) -> (id: i32) {
        self.id
    }

    fn is_alive(&self) -> (a: bool) {
        self.is_alive
    }
}

} // verus!
