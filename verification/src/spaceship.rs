//! The spaceship: the player's craft and the hull the AI ships share.
//!
//! Throttle and rotation are sticky flags toggled by Begin/Stop instruction
//! pairs; thrust integrates a direction vector from the current rotation;
//! velocity decays multiplicatively each tick with a dead-zone snap to zero;
//! firing is gated by a cooldown counter; the shield is a timed resource that
//! suppresses throttle and collision death while active.

use vstd::prelude::*;
use crate::actor::Actor;
use crate::actor::ActorView;
use crate::actor::CollisionType;
use crate::actor::ViewModel;
use crate::actor::SIZE_LIMIT;
use crate::fixed::clamp_add;
use crate::fixed::clamped;
use crate::fixed::mul_div_1000;
use crate::fixed::scaled;
use crate::fixed::COORD_LIMIT;
use crate::fixed::VEL_LIMIT;
use crate::messages::GameInstructions;
use crate::messages::PlayerInstructions;
use crate::rng::random_in_range;
use crate::trig::cos_milli;
use crate::trig::cosine;
use crate::trig::sin_milli;
use crate::trig::sine;
use crate::trig::wrap_deg;
use crate::trig::wrap_deg_milli;

verus! {

/// Ticks of shield charge, also the cap the charge regenerates to.
pub const SHIELD_TIME: i64 = 180;

/// Ticks of reload between shots.
pub const RELOAD_TIME: i64 = 20;

/// Forward thrust, in milli-units per tick per tick.
pub const SHIP_THRUST: i64 = 1050;

/// Reverse thrust, in milli-units per tick per tick.
pub const SHIP_REVERSE: i64 = 800;

/// Rotation step per tick while a rotate flag is set, in milli-degrees.
pub const ROTATE_STEP: i64 = 5000;

/// Whether ships emit trail events while thrusting.
pub const SHOW_TRAILS: bool = false;

/// The hull polygon, in milli render units.
pub open spec fn ship_shape() -> Seq<i64> {
    seq![0i64, 50i64, 25i64, -50i64, 0i64, -25i64, 0i64, -25i64, -25i64, -50i64, 0i64, 50i64]
}

/// The widened hull shown while the shield is up, in milli render units.
pub open spec fn ship_shield_shape() -> Seq<i64> {
    seq![0i64, 60i64, 40i64, -50i64, 0i64, -30i64, 0i64, -30i64, -40i64, -50i64, 0i64, 60i64]
}

/// The long engine flame, in milli render units.
pub open spec fn flame_full_shape() -> Seq<i64> {
    seq![0i64, -25i64, 15i64, -40i64, 0i64, -70i64, 0i64, -70i64, -15i64, -40i64, 0i64, -25i64]
}

/// The short engine flame, in milli render units.
pub open spec fn flame_idle_shape() -> Seq<i64> {
    seq![0i64, -25i64, 12i64, -30i64, 0i64, -40i64, 0i64, -40i64, -12i64, -30i64, 0i64, -25i64]
}

/// A player-controllable (or agent-controlled) ship.
#[derive(Clone, Copy, Debug, PartialEq)]
pub struct Spaceship {
    pub id: i32,
    pub x: i64,
    pub y: i64,
    pub acc_x: i64,
    pub acc_y: i64,
    pub rotation: i64,
    pub is_accelerating: bool,
    pub is_decelerating: bool,
    pub is_rotating_right: bool,
    pub is_rotating_left: bool,
    pub is_alive: bool,
    pub shield: bool,
    pub fire_countdown: i64,
    pub shield_timer: i64,
    pub thrust_timer: i64,
    pub color: (i64, i64, i64),
    pub normal_color: (i64, i64, i64),
    pub secondary_color: (i64, i64, i64),
    pub thrust_flame: bool,
}

impl Spaceship {
    /// Creates a ship at `(x, y)` milli-units heading along `rotation`
    /// milli-degrees, fully charged and at rest.
    pub fn new(id: i32, x: i64, y: i64, rotation: i64) -> (s: Spaceship)
        requires
            -COORD_LIMIT <= x <= COORD_LIMIT,
            -COORD_LIMIT <= y <= COORD_LIMIT,
            0 <= rotation < 360000,
        ensures
            s == (Spaceship {
                id,
                x,
                y,
                acc_x: 0,
                acc_y: 0,
                rotation,
                is_accelerating: false,
                is_decelerating: false,
                is_rotating_right: false,
                is_rotating_left: false,
                is_alive: true,
                shield: false,
                fire_countdown: 0,
                shield_timer: SHIELD_TIME,
                thrust_timer: 0,
                color: (500i64, 200i64, 200i64),
                normal_color: (500i64, 200i64, 200i64),
                secondary_color: (1000i64, 1000i64, 700i64),
                thrust_flame: true,
            }),
            s.wf(),
            s.alive(),
    {
        Spaceship {
            id,
            x,
            y,
            acc_x: 0,
            acc_y: 0,
            rotation,
            is_accelerating: false,
            is_decelerating: false,
            is_rotating_right: false,
            is_rotating_left: false,
            is_alive: true,
            shield: false,
            fire_countdown: 0,
            shield_timer: SHIELD_TIME,
            thrust_timer: 0,
            color: (500, 200, 200),
            normal_color: (500, 200, 200),
            secondary_color: (1000, 1000, 700),
            thrust_flame: true,
        }
    }

    /// Sets both the resting and the current hull color.
    pub fn set_color(&mut self, c: Vec<i64>)
        requires
            c@.len() == 3,
        ensures
            *final(self) == (Spaceship {
                color: (c@[0], c@[1], c@[2]),
                normal_color: (c@[0], c@[1], c@[2]),
                ..*old(self)
            }),
    {
        let r = c[0];
        let g = c[1];
        let b = c[2];
        self.normal_color = (r, g, b);
        self.color = (r, g, b);
    }

    /// A velocity component after one tick of damping, with the dead-zone
    /// snap to zero.
    pub open spec fn slowed(v: int) -> int {
        let d = scaled(v, 992);
        if -5 < d < 5 {
            0
        } else {
            d
        }
    }

    /// The ship after the start of a tick: it has moved by its velocity,
    /// damped, counted its reload down and its thrust timer up.
    pub open spec fn moved(pre: Self) -> Self {
        Spaceship {
            x: clamped(pre.x as int, pre.acc_x as int, COORD_LIMIT as int) as i64,
            y: clamped(pre.y as int, pre.acc_y as int, COORD_LIMIT as int) as i64,
            acc_x: Self::slowed(pre.acc_x as int) as i64,
            acc_y: Self::slowed(pre.acc_y as int) as i64,
            fire_countdown: if pre.fire_countdown > 0 {
                (pre.fire_countdown - 1) as i64
            } else {
                pre.fire_countdown
            },
            thrust_timer: if !pre.is_accelerating {
                clamped(pre.thrust_timer as int, 1, SIZE_LIMIT as int) as i64
            } else {
                pre.thrust_timer
            },
            ..pre
        }
    }

    /// The rotation after this tick's rotate flags have been applied.
    pub open spec fn rot_after(pre: Self) -> int {
        let r1 = if pre.is_rotating_left {
            wrap_deg(pre.rotation - ROTATE_STEP)
        } else {
            pre.rotation as int
        };
        if pre.is_rotating_right {
            wrap_deg(r1 + ROTATE_STEP)
        } else {
            r1
        }
    }

    /// The effect of one control pass: thrust or reverse along the current
    /// heading, then turn.  While thrusting, the flame color flickers
    /// randomly within its stated bands.
    pub open spec fn controlled(pre: Self, post: Self) -> bool {
        if pre.is_accelerating {
            &&& 800 <= post.secondary_color.0 < 1000
            &&& post.secondary_color.1 == post.secondary_color.0
            &&& 0 <= post.secondary_color.2 < 1000
            &&& post == (Spaceship {
                acc_x: clamped(
                    pre.acc_x as int,
                    scaled(SHIP_THRUST as int, sine(pre.rotation as int)),
                    VEL_LIMIT as int,
                ) as i64,
                acc_y: clamped(
                    pre.acc_y as int,
                    scaled(SHIP_THRUST as int, cosine(pre.rotation as int)),
                    VEL_LIMIT as int,
                ) as i64,
                is_decelerating: false,
                thrust_flame: true,
                thrust_timer: 0,
                rotation: Self::rot_after(pre) as i64,
                secondary_color: post.secondary_color,
                ..pre
            })
        } else if pre.is_decelerating {
            post == (Spaceship {
                acc_x: clamped(
                    pre.acc_x as int,
                    -scaled(SHIP_REVERSE as int, sine(pre.rotation as int)),
                    VEL_LIMIT as int,
                ) as i64,
                acc_y: clamped(
                    pre.acc_y as int,
                    -scaled(SHIP_REVERSE as int, cosine(pre.rotation as int)),
                    VEL_LIMIT as int,
                ) as i64,
                rotation: Self::rot_after(pre) as i64,
                ..pre
            })
        } else {
            post == (Spaceship { rotation: Self::rot_after(pre) as i64, ..pre })
        }
    }

    fn begin_increase_throttle(&mut self)
        requires
            old(self).wf(),
        ensures
            *final(self) == (Spaceship {
                is_accelerating: !old(self).shield || old(self).is_accelerating,
                ..*old(self)
            }),
    {
        if !self.shield {
            self.is_accelerating = true;
        }
    }

    fn stop_increase_throttle(&mut self)
        ensures
            *final(self) == (Spaceship {
                is_accelerating: false,
                thrust_flame: false,
                ..*old(self)
            }),
    {
        self.is_accelerating = false;
        self.thrust_flame = false;
    }

    fn begin_decrease_throttle(&mut self)
        ensures
            *final(self) == (Spaceship { is_decelerating: true, ..*old(self) }),
    {
        self.is_decelerating = true;
    }

    fn stop_decrease_throttle(&mut self)
        ensures
            *final(self) == (Spaceship { is_decelerating: false, ..*old(self) }),
    {
        self.is_decelerating = false;
    }

    fn begin_rotate_right(&mut self)
        ensures
            *final(self) == (Spaceship { is_rotating_right: true, ..*old(self) }),
    {
        self.is_rotating_right = true;
    }

    fn stop_rotate_right(&mut self)
        ensures
            *final(self) == (Spaceship { is_rotating_right: false, ..*old(self) }),
    {
        self.is_rotating_right = false;
    }

    fn begin_rotate_left(&mut self)
        ensures
            *final(self) == (Spaceship { is_rotating_left: true, ..*old(self) }),
    {
        self.is_rotating_left = true;
    }

    fn stop_rotate_left(&mut self)
        ensures
            *final(self) == (Spaceship { is_rotating_left: false, ..*old(self) }),
    {
        self.is_rotating_left = false;
    }

    fn accelerate(&mut self)
        requires
            old(self).wf(),
        ensures
            *final(self) == (Spaceship {
                acc_x: clamped(
                    old(self).acc_x as int,
                    scaled(SHIP_THRUST as int, sine(old(self).rotation as int)),
                    VEL_LIMIT as int,
                ) as i64,
                acc_y: clamped(
                    old(self).acc_y as int,
                    scaled(SHIP_THRUST as int, cosine(old(self).rotation as int)),
                    VEL_LIMIT as int,
                ) as i64,
                is_decelerating: false,
                thrust_flame: true,
                thrust_timer: 0,
                ..*old(self)
            }),
    {
        self.thrust_flame = true;
        self.thrust_timer = 0;
        let dirx = sin_milli(self.rotation);
        let diry = cos_milli(self.rotation);
        self.acc_x = clamp_add(self.acc_x, mul_div_1000(SHIP_THRUST, dirx), VEL_LIMIT);
        self.acc_y = clamp_add(self.acc_y, mul_div_1000(SHIP_THRUST, diry), VEL_LIMIT);
        self.is_decelerating = false;
    }

    fn decelerate(&mut self)
        requires
            old(self).wf(),
        ensures
            *final(self) == (Spaceship {
                acc_x: clamped(
                    old(self).acc_x as int,
                    -scaled(SHIP_REVERSE as int, sine(old(self).rotation as int)),
                    VEL_LIMIT as int,
                ) as i64,
                acc_y: clamped(
                    old(self).acc_y as int,
                    -scaled(SHIP_REVERSE as int, cosine(old(self).rotation as int)),
                    VEL_LIMIT as int,
                ) as i64,
                ..*old(self)
            }),
    {
        let dirx = sin_milli(self.rotation);
        let diry = cos_milli(self.rotation);
        self.acc_x = clamp_add(self.acc_x, -mul_div_1000(SHIP_REVERSE, dirx), VEL_LIMIT);
        self.acc_y = clamp_add(self.acc_y, -mul_div_1000(SHIP_REVERSE, diry), VEL_LIMIT);
    }

    fn control(&mut self)
        requires
            old(self).wf(),
        ensures
            final(self).wf(),
            Self::controlled(*old(self), *final(self)),
    {
        if self.is_accelerating {
            self.accelerate();
            let r1 = random_in_range(800, 1000);
            let r2 = random_in_range(0, 1000);
            self.secondary_color = (r1, r1, r2);
        }
        if self.is_decelerating {
            self.decelerate();
        }
        if self.is_rotating_left {
            self.rotate(-1);
        }
        if self.is_rotating_right {
            self.rotate(1);
        }
    }

    fn slow_down(&mut self)
        requires
            old(self).wf(),
        ensures
            *final(self) == (Spaceship {
                acc_x: Self::slowed(old(self).acc_x as int) as i64,
                acc_y: Self::slowed(old(self).acc_y as int) as i64,
                ..*old(self)
            }),
    {
        self.acc_x = mul_div_1000(self.acc_x, 992);
        self.acc_y = mul_div_1000(self.acc_y, 992);
        if self.acc_x < 5 && self.acc_x > -5 {
            self.acc_x = 0;
        }
        if self.acc_y < 5 && self.acc_y > -5 {
            self.acc_y = 0;
        }
    }

    fn rotate(&mut self, direction: i64)
        requires
            old(self).wf(),
            direction == 1 || direction == -1,
        ensures
            *final(self) == (Spaceship {
                rotation: wrap_deg(old(self).rotation + direction * ROTATE_STEP) as i64,
                ..*old(self)
            }),
    {
        self.rotation = wrap_deg_milli(self.rotation + direction * ROTATE_STEP);
    }

    fn shield_up(&mut self)
        ensures
            *final(self) == (if old(self).shield_timer < 1 {
                *old(self)
            } else {
                Spaceship {
                    shield: true,
                    color: (750i64, 850i64, 500i64),
                    is_accelerating: false,
                    is_decelerating: false,
                    is_rotating_left: false,
                    is_rotating_right: false,
                    ..*old(self)
                }
            }),
    {
        if self.shield_timer < 1 {
            return;
        }
        self.shield = true;
        self.color = (750, 850, 500);
        self.is_accelerating = false;
        self.is_decelerating = false;
        self.is_rotating_left = false;
        self.is_rotating_right = false;
    }

    fn shield_down(&mut self)
        ensures
            *final(self) == (Spaceship {
                shield: false,
                color: old(self).normal_color,
                ..*old(self)
            }),
    {
        self.shield = false;
        self.color = self.normal_color;
    }
}

impl Actor for Spaceship {
    open spec fn view(&self) -> ViewModel {
        ViewModel {
            id: self.id,
            parent: 0,
            x: self.x,
            y: self.y,
            width: 50_000,
            height: 100_000,
            rotation: self.rotation,
            shape: if self.shield {
                ship_shield_shape()
            } else {
                ship_shape()
            },
            color: seq![self.color.0, self.color.1, self.color.2],
            collision_type: CollisionType::Collide,
            show_secondary: self.is_accelerating || self.thrust_timer < 5,
            secondary_shape: Some(
                if self.thrust_flame {
                    flame_full_shape()
                } else {
                    flame_idle_shape()
                },
            ),
            secondary_color: Some(
                seq![self.secondary_color.0, self.secondary_color.1, self.secondary_color.2],
            ),
            meter: (self.shield_timer as int * 1000 / SHIELD_TIME as int) as i64,
        }
    }

    open spec fn alive(&self) -> bool {
        self.is_alive
    }

    open spec fn wf(&self) -> bool {
        &&& -COORD_LIMIT <= self.x <= COORD_LIMIT
        &&& -COORD_LIMIT <= self.y <= COORD_LIMIT
        &&& -VEL_LIMIT <= self.acc_x <= VEL_LIMIT
        &&& -VEL_LIMIT <= self.acc_y <= VEL_LIMIT
        &&& 0 <= self.rotation < 360000
        &&& 0 <= self.fire_countdown <= RELOAD_TIME
        &&& 0 <= self.shield_timer <= SHIELD_TIME
        &&& 0 <= self.thrust_timer <= SIZE_LIMIT
    }

    open spec fn updated(pre: Self, post: Self, emitted: Seq<(GameInstructions, ActorView)>) -> bool {
        let m = Self::moved(pre);
        &&& emitted.len() == 0
        &&& if pre.shield {
            if pre.shield_timer > 0 {
                &&& 500 <= post.color.0 < 1000
                &&& post.color.1 == 850
                &&& 200 <= post.color.2 < 800
                &&& post == (Spaceship {
                    color: post.color,
                    shield_timer: (pre.shield_timer - 1) as i64,
                    ..m
                })
            } else {
                post == (Spaceship { shield: false, color: pre.normal_color, ..m })
            }
        } else {
            Self::controlled(
                (Spaceship {
                    shield_timer: if pre.shield_timer < SHIELD_TIME {
                        (pre.shield_timer + 1) as i64
                    } else {
                        pre.shield_timer
                    },
                    ..m
                }),
                post,
            )
        }
    }

    open spec fn executed(
        pre: Self,
        msg: PlayerInstructions,
        post: Self,
        emitted: Seq<(GameInstructions, ActorView)>,
    ) -> bool {
        match msg {
            PlayerInstructions::BeginIncreaseThrottle => {
                &&& emitted.len() == 0
                &&& post == (Spaceship {
                    is_accelerating: !pre.shield || pre.is_accelerating,
                    ..pre
                })
            },
            PlayerInstructions::StopIncreaseThrottle => {
                &&& emitted.len() == 0
                &&& post == (Spaceship { is_accelerating: false, thrust_flame: false, ..pre })
            },
            PlayerInstructions::BeginDecreaseThrottle => {
                &&& emitted.len() == 0
                &&& post == (Spaceship { is_decelerating: true, ..pre })
            },
            PlayerInstructions::StopDecreaseThrottle => {
                &&& emitted.len() == 0
                &&& post == (Spaceship { is_decelerating: false, ..pre })
            },
            PlayerInstructions::BeginRotateRight => {
                &&& emitted.len() == 0
                &&& post == (Spaceship { is_rotating_right: true, ..pre })
            },
            PlayerInstructions::StopRotateRight => {
                &&& emitted.len() == 0
                &&& post == (Spaceship { is_rotating_right: false, ..pre })
            },
            PlayerInstructions::BeginRotateLeft => {
                &&& emitted.len() == 0
                &&& post == (Spaceship { is_rotating_left: true, ..pre })
            },
            PlayerInstructions::StopRotateLeft => {
                &&& emitted.len() == 0
                &&& post == (Spaceship { is_rotating_left: false, ..pre })
            },
            PlayerInstructions::Fire => {
                if pre.fire_countdown == 0 && !pre.shield {
                    &&& emitted.len() == 1
                    &&& emitted[0].0 == GameInstructions::Fire
                    &&& emitted[0].1@ == pre.view()
                    &&& post == (Spaceship { fire_countdown: RELOAD_TIME, ..pre })
                } else {
                    &&& emitted.len() == 0
                    &&& post == pre
                }
            },
            PlayerInstructions::Collide => {
                if !pre.shield {
                    &&& emitted.len() == 1
                    &&& emitted[0].0 == GameInstructions::Explode
                    &&& emitted[0].1@ == pre.view()
                    &&& post == (Spaceship { is_alive: false, ..pre })
                } else {
                    &&& emitted.len() == 0
                    &&& post == pre
                }
            },
            PlayerInstructions::Collect => {
                &&& emitted.len() == 1
                &&& emitted[0].0 == GameInstructions::Collect
                &&& emitted[0].1@ == pre.view()
                &&& post == pre
            },
            PlayerInstructions::ShieldUp => {
                &&& emitted.len() == 0
                &&& post == (if pre.shield_timer < 1 {
                    pre
                } else {
                    Spaceship {
                        shield: true,
                        color: (750i64, 850i64, 500i64),
                        is_accelerating: false,
                        is_decelerating: false,
                        is_rotating_left: false,
                        is_rotating_right: false,
                        ..pre
                    }
                })
            },
            PlayerInstructions::ShieldDown => {
                &&& emitted.len() == 0
                &&& post == (Spaceship { shield: false, color: pre.normal_color, ..pre })
            },
        }
    }

    fn update(&mut self, output_messages: &mut Vec<(GameInstructions, ActorView)>) {
        self.y = clamp_add(self.y, self.acc_y, COORD_LIMIT);
        self.x = clamp_add(self.x, self.acc_x, COORD_LIMIT);
        self.slow_down();
        if self.fire_countdown > 0 {
            self.fire_countdown = self.fire_countdown - 1;
        }
        if !self.is_accelerating {
            self.thrust_timer = clamp_add(self.thrust_timer, 1, SIZE_LIMIT);
        }
        if self.shield {
            if self.shield_timer > 0 {
                let r = random_in_range(500, 1000);
                let b = random_in_range(200, 800);
                self.color = (r, 850, b);
                self.shield_timer = self.shield_timer - 1;
            } else {
                self.shield_down();
            }
            proof {
                assert(final(output_messages)@.subrange(0, old(output_messages)@.len() as int)
                    =~= old(output_messages)@);
            }
            return;
        }
        if self.shield_timer < SHIELD_TIME {
            self.shield_timer = self.shield_timer + 1;
        }
        self.control();
        if SHOW_TRAILS {
            if self.is_accelerating {
                if random_in_range(0, 10) == 9 {
                    let v = self.get_view();
                    output_messages.push((GameInstructions::Trail, v));
                }
            }
        }
        proof {
            assert(final(output_messages)@.subrange(0, old(output_messages)@.len() as int)
                =~= old(output_messages)@);
        }
    }

    fn get_view(&self) -> (v: ActorView) {
        let shape: Vec<i64> = if self.shield {
            vec![0, 60, 40, -50, 0, -30, 0, -30, -40, -50, 0, 60]
        } else {
            vec![0, 50, 25, -50, 0, -25, 0, -25, -25, -50, 0, 50]
        };
        let secondary: Vec<i64> = if self.thrust_flame {
            vec![0, -25, 15, -40, 0, -70, 0, -70, -15, -40, 0, -25]
        } else {
            vec![0, -25, 12, -30, 0, -40, 0, -40, -12, -30, 0, -25]
        };
        let color: Vec<i64> = vec![self.color.0, self.color.1, self.color.2];
        let secondary_color: Vec<i64> =
            vec![self.secondary_color.0, self.secondary_color.1, self.secondary_color.2];
        proof {
            if self.shield {
                assert(shape@ =~= ship_shield_shape());
            } else {
                assert(shape@ =~= ship_shape());
            }
            if self.thrust_flame {
                assert(secondary@ =~= flame_full_shape());
            } else {
                assert(secondary@ =~= flame_idle_shape());
            }
            assert(color@ =~= seq![self.color.0, self.color.1, self.color.2]);
            assert(secondary_color@ =~= seq![
                self.secondary_color.0,
                self.secondary_color.1,
                self.secondary_color.2,
            ]);
        }
        ActorView {
            id: self.id,
            parent: 0,
            x: self.x,
            y: self.y,
            width: 50_000,
            height: 100_000,
            rotation: self.rotation,
            shape,
            color,
            collision_type: CollisionType::Collide,
            show_secondary: self.is_accelerating || self.thrust_timer < 5,
            secondary_shape: Some(secondary),
            secondary_color: Some(secondary_color),
            meter: (self.shield_timer * 1000) / SHIELD_TIME,
        }
    }

    fn execute(
        &mut self,
        message: &PlayerInstructions,
        output_messages: &mut Vec<(GameInstructions, ActorView)>,
    ) {
        match message {
            PlayerInstructions::BeginIncreaseThrottle => self.begin_increase_throttle(),
            PlayerInstructions::BeginDecreaseThrottle => self.begin_decrease_throttle(),
            PlayerInstructions::StopIncreaseThrottle => self.stop_increase_throttle(),
            PlayerInstructions::StopDecreaseThrottle => self.stop_decrease_throttle(),
            PlayerInstructions::BeginRotateRight => self.begin_rotate_right(),
            PlayerInstructions::BeginRotateLeft => self.begin_rotate_left(),
            PlayerInstructions::StopRotateRight => self.stop_rotate_right(),
            PlayerInstructions::StopRotateLeft => self.stop_rotate_left(),
            PlayerInstructions::Fire => {
                if self.fire_countdown == 0 && !self.shield {
                    let v = self.get_view();
                    output_messages.push((GameInstructions::Fire, v));
                    self.fire_countdown = RELOAD_TIME;
                }
            },
            PlayerInstructions::Collide => {
                if !self.shield {
                    self.is_alive = false;
                    let v = self.get_view();
                    output_messages.push((GameInstructions::Explode, v));
                }
            },
            PlayerInstructions::Collect => {
                let v = self.get_view();
                output_messages.push((GameInstructions::Collect, v));
            },
            PlayerInstructions::ShieldUp => self.shield_up(),
            PlayerInstructions::ShieldDown => self.shield_down(),
        }
        proof {
            assert(final(output_messages)@.subrange(0, old(output_messages)@.len() as int)
                =~= old(output_messages)@);
        }
    }

    fn kill(&mut self) {
        self.is_alive = false;
    }

    fn get_id(&self) -> (id: i32) {
        self.id
    }

    fn is_alive(&self) -> (a: bool) {
        self.is_alive
    }
}

/// Law: a ship with no reload pending and no shield up answers a fire
/// instruction with exactly one fire event, tagged with its own snapshot,
/// and starts the full reload; a second fire instruction arriving before
/// the reload has run out yields no event and changes nothing.
pub proof fn lemma_fire_gated_by_reload(
    pre: Spaceship,
    mid: Spaceship,
    post: Spaceship,
    first: Seq<(GameInstructions, ActorView)>,
    second: Seq<(GameInstructions, ActorView)>,
)
    requires
        pre.fire_countdown == 0,
        !pre.shield,
        Spaceship::executed(pre, PlayerInstructions::Fire, mid, first),
        Spaceship::executed(mid, PlayerInstructions::Fire, post, second),
    ensures
        first.len() == 1,
        first[0].0 == GameInstructions::Fire,
        first[0].1@ == pre.view(),
        mid.fire_countdown == RELOAD_TIME,
        second.len() == 0,
        post == mid,
{
}

} // verus!
