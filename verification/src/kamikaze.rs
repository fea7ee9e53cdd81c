//! The kamikaze: a ballistic homing enemy.
//!
//! Its rotation is fixed at spawn toward a captured target point and never
//! re-aimed; every tick it accelerates along that fixed heading.

use vstd::prelude::*;
use crate::actor::Actor;
use crate::actor::ActorView;
use crate::actor::CollisionType;
use crate::actor::ViewModel;
use crate::fixed::clamp_add;
use crate::fixed::clamped;
use crate::fixed::mul_div_1000;
use crate::fixed::scaled;
use crate::fixed::COORD_LIMIT;
use crate::fixed::VEL_LIMIT;
use crate::messages::GameInstructions;
use crate::messages::PlayerInstructions;
use crate::trig::bearing;
use crate::trig::bearing_milli;
use crate::trig::cos_milli;
use crate::trig::cosine;
use crate::trig::sin_milli;
use crate::trig::sine;

verus! {

/// The kamikaze's thrust, in milli-units per tick per tick.
pub const KAMIKAZE_THRUST: i64 = 1010;

/// The kamikaze's polygon, in milli render units.
pub open spec fn kamikaze_shape() -> Seq<i64> {
    seq![0i64, 60i64, 24i64, -60i64, -24i64, -60i64]
}

/// The kamikaze's color, in milli RGB.
pub open spec fn kamikaze_color() -> Seq<i64> {
    seq![150i64, 150i64, 500i64]
}

/// A homing enemy with a heading captured at spawn.
#[derive(Clone, Copy, Debug, PartialEq)]
pub struct Kamikaze {
    pub id: i32,
    pub x: i64,
    pub y: i64,
    pub vx: i64,
    pub vy: i64,
    pub rotation: i64,
    pub is_alive: bool,
}

impl Kamikaze {
    /// Creates a kamikaze at `(x, y)` milli-units aimed once at the target
    /// point, all in milli-units.
    pub fn new(id: i32, x: i64, y: i64, target: (i64, i64)) -> (k: Kamikaze)
        requires
            -COORD_LIMIT <= x <= COORD_LIMIT,
            -COORD_LIMIT <= y <= COORD_LIMIT,
            -COORD_LIMIT <= target.0 <= COORD_LIMIT,
            -COORD_LIMIT <= target.1 <= COORD_LIMIT,
        ensures
            k == (Kamikaze {
                id,
                x,
                y,
                vx: 0,
                vy: 0,
                rotation: bearing(target.0 - x, target.1 - y) as i64,
                is_alive: true,
            }),
            k.wf(),
            k.alive(),
    {
        let (tx, ty) = target;
        let dx = tx - x;
        let dy = ty - y;
        let rotation = bearing_milli(dx, dy);
        Kamikaze { id, x, y, vx: 0, vy: 0, rotation, is_alive: true }
    }

    /// The velocity gained in one tick along the fixed heading.
    pub open spec fn thrust_x(&self) -> int {
        scaled(KAMIKAZE_THRUST as int, sine(self.rotation as int))
    }

    /// The vertical velocity gained in one tick along the fixed heading.
    pub open spec fn thrust_y(&self) -> int {
        scaled(KAMIKAZE_THRUST as int, cosine(self.rotation as int))
    }
}

impl Actor for Kamikaze {
    open spec fn view(&self) -> ViewModel {
        ViewModel {
            id: self.id,
            parent: 0,
            x: self.x,
            y: self.y,
            width: 50_000,
            height: 100_000,
            rotation: self.rotation,
            shape: kamikaze_shape(),
            color: kamikaze_color(),
            collision_type: CollisionType::Collide,
            show_secondary: false,
            secondary_shape: None,
            secondary_color: None,
            meter: 0,
        }
    }

    open spec fn alive(&self) -> bool {
        self.is_alive
    }

    open spec fn wf(&self) -> bool {
        &&& -COORD_LIMIT <= self.x <= COORD_LIMIT
        &&& -COORD_LIMIT <= self.y <= COORD_LIMIT
        &&& -VEL_LIMIT <= self.vx <= VEL_LIMIT
        &&& -VEL_LIMIT <= self.vy <= VEL_LIMIT
        &&& 0 <= self.rotation < 360000
    }

    open spec fn updated(pre: Self, post: Self, emitted: Seq<(GameInstructions, ActorView)>) -> bool {
        let vx = clamped(pre.vx as int, pre.thrust_x(), VEL_LIMIT as int);
        let vy = clamped(pre.vy as int, pre.thrust_y(), VEL_LIMIT as int);
        &&& emitted.len() == 0
        &&& post == (Kamikaze {
            x: clamped(pre.x as int, vx, COORD_LIMIT as int) as i64,
            y: clamped(pre.y as int, vy, COORD_LIMIT as int) as i64,
            vx: vx as i64,
            vy: vy as i64,
            ..pre
        })
    }

    open spec fn executed(
        pre: Self,
        msg: PlayerInstructions,
        post: Self,
        emitted: Seq<(GameInstructions, ActorView)>,
    ) -> bool {
        if msg == PlayerInstructions::Collide {
            &&& post == (Kamikaze { is_alive: false, ..pre })
            &&& emitted.len() == 1
            &&& emitted[0].0 == GameInstructions::Explode
            &&& emitted[0].1@ == pre.view()
        } else {
            &&& emitted.len() == 0
            &&& post == pre
        }
    }

    fn update(&mut self, output_messages: &mut Vec<(GameInstructions, ActorView)>) {
        let dirx = sin_milli(self.rotation);
        let diry = cos_milli(self.rotation);
        self.vx = clamp_add(self.vx, mul_div_1000(KAMIKAZE_THRUST, dirx), VEL_LIMIT);
        self.vy = clamp_add(self.vy, mul_div_1000(KAMIKAZE_THRUST, diry), VEL_LIMIT);
        self.y = clamp_add(self.y, self.vy, COORD_LIMIT);
        self.x = clamp_add(self.x, self.vx, COORD_LIMIT);
        proof {
            assert(final(output_messages)@.subrange(0, old(output_messages)@.len() as int)
                =~= old(output_messages)@);
        }
    }

    fn get_view(&self) -> (v: ActorView) {
        let shape: Vec<i64> = vec![0, 60, 24, -60, -24, -60];
        let color: Vec<i64> = vec![150, 150, 500];
        proof {
            assert(shape@ =~= kamikaze_shape());
            assert(color@ =~= kamikaze_color());
        }
        ActorView {
            id: self.id,
            parent: 0,
            x: self.x,
            y: self.y,
            width: 50_000,
            height: 100_000,
            rotation: self.rotation,
            shape,
            color,
            collision_type: CollisionType::Collide,
            show_secondary: false,
            secondary_shape: None,
            secondary_color: None,
            meter: 0,
        }
    }

    fn execute(
        &mut self,
        message: &PlayerInstructions,
        output_messages: &mut Vec<(GameInstructions, ActorView)>,
    ) {
        match message {
            PlayerInstructions::Collide => {
                self.is_alive = false;
                let v = self.get_view();
                output_messages.push((GameInstructions::Explode, v));
            },
            _ => {},
        }
        proof {
            assert(final(output_messages)@.subrange(0, old(output_messages)@.len() as int)
                =~= old(output_messages)@);
        }
    }

    fn kill(&mut self) {
        self.is_alive = false;
    }

    fn get_id(&self) -> (id: i32) {
        self.id
    }

    fn is_alive(&self) -> (a: bool) {
        self.is_alive
    }
}

} // verus!
