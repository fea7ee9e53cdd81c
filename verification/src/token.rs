//! The collectible token: a static, passively spinning pickup.
//!
//! Tokens carry `CollisionType::Collect`, are never culled by distance, and
//! ignore every targeted instruction.

use vstd::prelude::*;
use crate::actor::Actor;
use crate::actor::ActorView;
use crate::actor::CollisionType;
use crate::actor::ViewModel;
use crate::fixed::COORD_LIMIT;
use crate::messages::GameInstructions;
use crate::messages::PlayerInstructions;
use crate::rng::random_in_range;
use crate::trig::wrap_deg;
use crate::trig::wrap_deg_milli;

verus! {

/// The token's polygon, in milli render units.
pub open spec fn token_shape() -> Seq<i64> {
    seq![
        -20i64, 50i64, 20i64, 50i64, 50i64, 0i64,
        50i64, 0i64, 20i64, -50i64, -20i64, -50i64,
        -20i64, -50i64, -50i64, 0i64, -20i64, 50i64,
        -20i64, 50i64, 50i64, 0i64, -20i64, -50i64,
    ]
}

/// The token's color, in milli RGB.
pub open spec fn token_color() -> Seq<i64> {
    seq![900i64, 900i64, 400i64]
}

/// A collectible token.
#[derive(Clone, Copy, Debug, PartialEq)]
pub struct Token {
    pub id: i32,
    pub x: i64,
    pub y: i64,
    pub rotation: i64,
    pub is_alive: bool,
    pub r_speed: i64,
}

impl Token {
    /// Creates a token at `(x, y)` milli-units with a random spin speed.
    pub fn new(id: i32, x: i64, y: i64) -> (t: Token)
        requires
            -COORD_LIMIT <= x <= COORD_LIMIT,
            -COORD_LIMIT <= y <= COORD_LIMIT,
        ensures
            t.wf(),
            t.alive(),
            t.view() == (ViewModel { rotation: 0, ..Token::model(id, x, y) }),
    {
        let r = random_in_range(-5000, 5000);
        Token { id, x, y, rotation: 0, is_alive: true, r_speed: r }
    }

    /// The snapshot a token at `(x, y)` presents, up to its spin angle.
    pub open spec fn model(id: i32, x: i64, y: i64) -> ViewModel {
        ViewModel {
            id: id,
            parent: 0,
            x: x,
            y: y,
            width: 100_000,
            height: 100_000,
            rotation: 0,
            shape: token_shape(),
            color: token_color(),
            collision_type: CollisionType::Collect,
            show_secondary: false,
            secondary_shape: None,
            secondary_color: None,
            meter: 0,
        }
    }
}

impl Actor for Token {
    open spec fn view(&self) -> ViewModel {
        ViewModel { rotation: self.rotation, ..Token::model(self.id, self.x, self.y) }
    }

    open spec fn alive(&self) -> bool {
        self.is_alive
    }

    open spec fn wf(&self) -> bool {
        &&& -COORD_LIMIT <= self.x <= COORD_LIMIT
        &&& -COORD_LIMIT <= self.y <= COORD_LIMIT
        &&& 0 <= self.rotation < 360000
        &&& -5000 <= self.r_speed < 5000
    }

    open spec fn updated(pre: Self, post: Self, emitted: Seq<(GameInstructions, ActorView)>) -> bool {
        &&& emitted.len() == 0
        &&& post == (Token { rotation: wrap_deg(pre.rotation + pre.r_speed) as i64, ..pre })
    }

    open spec fn executed(
        pre: Self,
        msg: PlayerInstructions,
        post: Self,
        emitted: Seq<(GameInstructions, ActorView)>,
    ) -> bool {
        &&& emitted.len() == 0
        &&& post == pre
    }

    fn update(&mut self, output_messages: &mut Vec<(GameInstructions, ActorView)>) {
        self.rotation = wrap_deg_milli(self.rotation + self.r_speed);
        proof {
            assert(final(output_messages)@.subrange(0, old(output_messages)@.len() as int)
                =~= old(output_messages)@);
        }
    }

    fn get_view(&self) -> (v: ActorView) {
        let shape: Vec<i64> = vec![
            -20, 50, 20, 50, 50, 0,
            50, 0, 20, -50, -20, -50,
            -20, -50, -50, 0, -20, 50,
            -20, 50, 50, 0, -20, -50,
        ];
        let color: Vec<i64> = vec![900, 900, 400];
        proof {
            assert(shape@ =~= token_shape());
            assert(color@ =~= token_color());
        }
        let v = ActorView {
            id: self.id,
            parent: 0,
            x: self.x,
            y: self.y,
            width: 100_000,
            height: 100_000,
            rotation: self.rotation,
            shape,
            color,
            collision_type: CollisionType::Collect,
            show_secondary: false,
            secondary_shape: None,
            secondary_color: None,
            meter: 0,
        };
        proof {
            assert(v@ == self.view());
        }
        v
    }

    fn execute(
        &mut self,
        message: &PlayerInstructions,
        output_messages: &mut Vec<(GameInstructions, ActorView)>,
    ) {
        match message {
            PlayerInstructions::Collide => {},
            _ => {},
        }
        proof {
            assert(final(output_messages)@.subrange(0, old(output_messages)@.len() as int)
                =~= old(output_messages)@);
        }
    }

    fn kill(&mut self) {
        self.is_alive = false;
    }

    fn get_id(&self) -> (id: i32) {
        self.id
    }

    fn is_alive(&self) -> (a: bool) {
        self.is_alive
    }
}

} // verus!
