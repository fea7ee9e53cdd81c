//! The explosion: a non-interactive, purely timed animation.
//!
//! Its polygon and color change at two age thresholds (a growing then fading
//! ring), and past a final age threshold it marks itself dead.  It never
//! emits events and ignores every instruction; collisions pass through it.

use vstd::prelude::*;
use crate::actor::Actor;
use crate::actor::ActorView;
use crate::actor::CollisionType;
use crate::actor::ViewModel;
use crate::actor::SIZE_LIMIT;
use crate::fixed::clamp_add;
use crate::fixed::clamped;
use crate::fixed::COORD_LIMIT;
use crate::messages::GameInstructions;
use crate::messages::PlayerInstructions;
use crate::trig::wrap_deg;
use crate::trig::wrap_deg_milli;

verus! {

/// The animation stage an explosion of age `age` is in.
pub open spec fn explosion_stage(age: i64) -> int {
    if age > 15 {
        2
    } else if age > 10 {
        1
    } else {
        0
    }
}

/// The explosion's polygon at a given stage, in milli render units.
pub open spec fn explosion_shape(stage: int, size: i64) -> Seq<i64> {
    if stage == 2 {
        let s = size as int * 3 / 2;
        seq![0, s, s, 0, 0, -s, 0, -s, -s, 0, 0, s].map_values(|v: int| v as i64)
    } else if stage == 1 {
        let s = size as int * 2;
        seq![-s, s, -s, -s, s, -s, s, -s, s, s, -s, s].map_values(|v: int| v as i64)
    } else {
        let s = size as int;
        seq![0, s, s, 0, 0, -s, 0, -s, -s, 0, 0, s].map_values(|v: int| v as i64)
    }
}

/// The explosion's color at a given stage, in milli RGB.
pub open spec fn explosion_color(stage: int) -> Seq<i64> {
    if stage == 2 {
        seq![700i64, 700i64, 700i64]
    } else if stage == 1 {
        seq![900i64, 900i64, 400i64]
    } else {
        seq![900i64, 900i64, 900i64]
    }
}

/// A transient explosion effect.
#[derive(Clone, Copy, Debug, PartialEq)]
pub struct Explosion {
    pub id: i32,
    pub x: i64,
    pub y: i64,
    pub rotation: i64,
    pub is_alive: bool,
    pub size: i64,
    pub age: i64,
}

impl Explosion {
    /// Creates an explosion at `(x, y)` milli-units for an actor of
    /// half-extent `d` milli-units, starting at `rotation` milli-degrees.
    pub fn new(x: i64, y: i64, d: i64, rotation: i64) -> (e: Explosion)
        requires
            -COORD_LIMIT <= x <= COORD_LIMIT,
            -COORD_LIMIT <= y <= COORD_LIMIT,
            0 <= d <= SIZE_LIMIT,
            0 <= rotation < 360000,
        ensures
            e == (Explosion {
                id: 0,
                x,
                y,
                rotation,
                is_alive: true,
                size: (d as int / 2000) as i64,
                age: 0,
            }),
            e.wf(),
            e.alive(),
    {
        Explosion { id: 0, x, y, rotation, is_alive: true, size: d / 2000, age: 0 }
    }
}

impl Actor for Explosion {
    open spec fn view(&self) -> ViewModel {
        ViewModel {
            id: self.id,
            parent: 0,
            x: self.x,
            y: self.y,
            width: 0,
            height: 0,
            rotation: self.rotation,
            shape: explosion_shape(explosion_stage(self.age), self.size),
            color: explosion_color(explosion_stage(self.age)),
            collision_type: CollisionType::Ignore,
            show_secondary: false,
            secondary_shape: None,
            secondary_color: None,
            meter: 0,
        }
    }

    open spec fn alive(&self) -> bool {
        self.is_alive
    }

    open spec fn wf(&self) -> bool {
        &&& -COORD_LIMIT <= self.x <= COORD_LIMIT
        &&& -COORD_LIMIT <= self.y <= COORD_LIMIT
        &&& 0 <= self.rotation < 360000
        &&& 0 <= self.size <= SIZE_LIMIT
        &&& 0 <= self.age <= SIZE_LIMIT
    }

    open spec fn updated(pre: Self, post: Self, emitted: Seq<(GameInstructions, ActorView)>) -> bool {
        &&& emitted.len() == 0
        &&& post == (Explosion {
            age: clamped(pre.age as int, 1, SIZE_LIMIT as int) as i64,
            is_alive: pre.is_alive && clamped(pre.age as int, 1, SIZE_LIMIT as int) <= 27,
            rotation: wrap_deg(pre.rotation + 1000) as i64,
            ..pre
        })
    }

    open spec fn executed(
        pre: Self,
        msg: PlayerInstructions,
        post: Self,
        emitted: Seq<(GameInstructions, ActorView)>,
    ) -> bool {
        &&& emitted.len() == 0
        &&& post == pre
    }

    fn update(&mut self, output_messages: &mut Vec<(GameInstructions, ActorView)>) {
        self.age = clamp_add(self.age, 1, SIZE_LIMIT);
        if self.age > 27 {
            self.is_alive = false;
        }
        self.rotation = wrap_deg_milli(self.rotation + 1000);
        proof {
            assert(final(output_messages)@.subrange(0, old(output_messages)@.len() as int)
                =~= old(output_messages)@);
        }
    }

    fn get_view(&self) -> (v: ActorView) {
        let mut shape: Vec<i64> = Vec::new();
        let mut color: Vec<i64> = Vec::new();
        if self.age > 15 {
            let s = self.size * 3 / 2;
            shape.push(0); shape.push(s); shape.push(s); shape.push(0);
            shape.push(0); shape.push(-s); shape.push(0); shape.push(-s);
            shape.push(-s); shape.push(0); shape.push(0); shape.push(s);
            color.push(700); color.push(700); color.push(700);
        } else if self.age > 10 {
            let s = self.size * 2;
            shape.push(-s); shape.push(s); shape.push(-s); shape.push(-s);
            shape.push(s); shape.push(-s); shape.push(s); shape.push(-s);
            shape.push(s); shape.push(s); shape.push(-s); shape.push(s);
            color.push(900); color.push(900); color.push(400);
        } else {
            let s = self.size;
            shape.push(0); shape.push(s); shape.push(s); shape.push(0);
            shape.push(0); shape.push(-s); shape.push(0); shape.push(-s);
            shape.push(-s); shape.push(0); shape.push(0); shape.push(s);
            color.push(900); color.push(900); color.push(900);
        }
        proof {
            assert(shape@ =~= explosion_shape(explosion_stage(self.age), self.size));
            assert(color@ =~= explosion_color(explosion_stage(self.age)));
        }
        ActorView {
            id: self.id,
            parent: 0,
            x: self.x,
            y: self.y,
            width: 0,
            height: 0,
            rotation: self.rotation,
            shape,
            color,
            collision_type: CollisionType::Ignore,
            show_secondary: false,
            secondary_shape: None,
            secondary_color: None,
            meter: 0,
        }
    }

    fn execute(
        &mut self,
        message: &PlayerInstructions,
        output_messages: &mut Vec<(GameInstructions, ActorView)>,
    ) {
        match message {
            _ => {},
        }
        proof {
            assert(final(output_messages)@.subrange(0, old(output_messages)@.len() as int)
                =~= old(output_messages)@);
        }
    }

    fn kill(&mut self) {
        self.is_alive = false;
    }

    fn get_id(&self) -> (id: i32) {
        self.id
    }

    fn is_alive(&self) -> (a: bool) {
        self.is_alive
    }
}

} // verus!
