//! The per-tick glue above the actor manager: the camera, the spawn policy,
//! and the debounced restart check.
//!
//! The host loop polls once per second whether the player still exists;
//! only after the absence persists across the debounce window is the world
//! reset, so a single-tick transient never wipes a round.

use vstd::prelude::*;
use crate::actor::Actor;
use crate::actor::PLAYER_ID;
use crate::actor_manager::ActorManager;
use crate::actor_manager::player_ship;
use crate::fixed::clamp_add;
use crate::fixed::dist_sq_milli;
use crate::fixed::COORD_LIMIT;
use crate::game::Game;
use crate::rng::random_in_range;

verus! {

/// Half-width of the square window around the camera that spawns sample,
/// in milli-units.
pub const SPAWN_WINDOW: i64 = 4_000_000;

/// Minimum clearance between the camera and a spawn point, squared, in
/// milli-units squared.
pub const SPAWN_CLEARANCE_SQUARED: i128 = 6_760_000_000_000;

/// How many random samples one spawn pass may draw before giving up.
pub const SPAWN_ATTEMPT_LIMIT: usize = 100_000;

/// How many consecutive once-per-second checks must miss the player before
/// the world restarts.
pub const RESTART_DEBOUNCE: u32 = 3;

/// Whether a snapshot sits inside the spawn window around the camera and
/// strictly beyond the clearance radius.
pub open spec fn spawned_in_window(v: crate::actor::ViewModel, cam: (i64, i64)) -> bool {
    &&& cam.0 - SPAWN_WINDOW <= v.x <= cam.0 + SPAWN_WINDOW
    &&& cam.1 - SPAWN_WINDOW <= v.y <= cam.1 + SPAWN_WINDOW
    &&& crate::fixed::dist_sq(cam.0 as int, cam.1 as int, v.x as int, v.y as int)
        > SPAWN_CLEARANCE_SQUARED as int
}

/// Whether some snapshot of the world carries the player's id.
pub open spec fn player_present(actors: ActorManager) -> bool {
    exists|j: int|
        0 <= j < actors.all_views().len() && (#[trigger] actors.all_views()[j]).id == PLAYER_ID
}

/// True when no actor in the world carries the player's id: the signal that
/// feeds the restart debounce.
pub fn check_restart(actors: &ActorManager) -> (r: bool)
    requires
        actors.wf(),
    ensures
        r == !player_present(*actors),
{
    let views = actors.get();
    proof {
        assert forall|k: int| 0 <= k < views@.len() implies (#[trigger] views@[k])@
            == actors.all_views()[k] by {
            assert(crate::actor::model_seq(views@)[k] == views@[k]@);
        }
    }
    let mut player_exists = false;
    let mut i: usize = 0;
    while i < views.len()
        invariant
            0 <= i <= views@.len(),
            views@.len() == actors.all_views().len(),
            forall|k: int| 0 <= k < views@.len() ==> (#[trigger] views@[k])@ == actors.all_views()[k],
            player_exists ==> player_present(*actors),
            !player_exists ==> forall|j: int|
                0 <= j < i ==> (#[trigger] actors.all_views()[j]).id != PLAYER_ID,
        decreases views@.len() - i,
    {
        if views[i].id == PLAYER_ID {
            player_exists = true;
            proof {
                assert((#[trigger] actors.all_views()[i as int]).id == PLAYER_ID);
            }
        }
        i = i + 1;
    }
    !player_exists
}

/// The camera position for this tick: the player's position when the player
/// exists, else the previous camera position.
pub fn get_camera(actor_manager: &ActorManager, cam: (i64, i64)) -> (r: (i64, i64))
    requires
        actor_manager.wf(),
    ensures
        player_present(*actor_manager) ==> exists|j: int|
            0 <= j < actor_manager.all_views().len()
                && (#[trigger] actor_manager.all_views()[j]).id == PLAYER_ID
                && r.0 == actor_manager.all_views()[j].x && r.1 == actor_manager.all_views()[j].y,
        !player_present(*actor_manager) ==> r == cam,
        -COORD_LIMIT <= r.0 <= COORD_LIMIT || r == cam,
        -COORD_LIMIT <= r.1 <= COORD_LIMIT || r == cam,
{
    let views = actor_manager.get();
    proof {
        assert forall|k: int| 0 <= k < views@.len() implies (#[trigger] views@[k])@
            == actor_manager.all_views()[k] by {
            assert(crate::actor::model_seq(views@)[k] == views@[k]@);
        }
    }
    let mut i: usize = 0;
    while i < views.len()
        invariant
            0 <= i <= views@.len(),
            views@.len() == actor_manager.all_views().len(),
            forall|k: int| 0 <= k < views@.len() ==> (#[trigger] views@[k])@
                == actor_manager.all_views()[k],
            forall|k: int| 0 <= k < views@.len() ==> (#[trigger] views@[k])@.wf(),
            forall|j: int|
                0 <= j < i ==> (#[trigger] actor_manager.all_views()[j]).id != PLAYER_ID,
        decreases views@.len() - i,
    {
        let v = &views[i];
        if v.id == PLAYER_ID {
            proof {
                assert((#[trigger] actor_manager.all_views()[i as int]).id == PLAYER_ID);
            }
            return (v.x, v.y);
        }
        i = i + 1;
    }
    cam
}

/// Resets the round: the world keeps only a fresh player ship and one
/// token, the score returns to zero, and the high score survives.
pub fn restart(actors: &mut ActorManager, game: &mut Game)
    requires
        old(actors).wf(),
        old(actors).count < i32::MAX,
    ensures
        final(actors).wf(),
        final(actors).spaceships@ =~= seq![player_ship()],
        final(actors).bullets@.len() == 0,
        final(actors).asteroids@.len() == 0,
        final(actors).kamikaze@.len() == 0,
        final(actors).explosions@.len() == 0,
        final(actors).tokens@.len() == 1,
        final(actors).tokens@[0].view().id == old(actors).count + 1,
        final(actors).tokens@[0].alive(),
        final(actors).count == old(actors).count + 1,
        *final(game) == (Game { score: 0, highscore: old(game).highscore }),
{
    game.restart();
    actors.restart();
}

/// Tops the population up toward the target: samples points in the window
/// around the camera, keeps those with enough clearance, and spawns a
/// weighted random category at each — mostly asteroids, some ships, few
/// kamikaze.  Bounded by an attempt budget and by the id space.
#[verifier::rlimit(60)]
pub fn generate_actors(actors: &mut ActorManager, cam: (i64, i64), max_actors: usize)
    requires
        old(actors).wf(),
        -COORD_LIMIT <= cam.0 <= COORD_LIMIT,
        -COORD_LIMIT <= cam.1 <= COORD_LIMIT,
    ensures
        final(actors).wf(),
        old(actors).spaceships@.is_prefix_of(final(actors).spaceships@),
        old(actors).asteroids@.is_prefix_of(final(actors).asteroids@),
        old(actors).kamikaze@.is_prefix_of(final(actors).kamikaze@),
        final(actors).bullets == old(actors).bullets,
        final(actors).explosions == old(actors).explosions,
        final(actors).tokens == old(actors).tokens,
        final(actors).total_actors() >= old(actors).total_actors(),
        final(actors).total_actors() <= if old(actors).total_actors() > max_actors {
            old(actors).total_actors()
        } else {
            max_actors as int
        },
        forall|k: int|
            old(actors).spaceships@.len() <= k < final(actors).spaceships@.len()
                ==> spawned_in_window((#[trigger] final(actors).spaceships@[k]).view(), cam),
        forall|k: int|
            old(actors).asteroids@.len() <= k < final(actors).asteroids@.len()
                ==> spawned_in_window((#[trigger] final(actors).asteroids@[k]).view(), cam),
        forall|k: int|
            old(actors).kamikaze@.len() <= k < final(actors).kamikaze@.len()
                ==> spawned_in_window((#[trigger] final(actors).kamikaze@[k]).view(), cam)
                    && final(actors).kamikaze@[k].view().rotation == crate::trig::bearing(
                        cam.0 - final(actors).kamikaze@[k].view().x,
                        cam.1 - final(actors).kamikaze@[k].view().y,
                    ) as i64,
        final(actors).px == old(actors).px,
        final(actors).py == old(actors).py,
{
    let (cx, cy) = cam;
    let mut attempts: usize = 0;
    let ghost pre = *old(actors);
    while actors.total_count() < max_actors && actors.count < i32::MAX - 1
        && attempts < SPAWN_ATTEMPT_LIMIT
        invariant
            actors.wf(),
            pre.spaceships@.is_prefix_of(actors.spaceships@),
            pre.asteroids@.is_prefix_of(actors.asteroids@),
            pre.kamikaze@.is_prefix_of(actors.kamikaze@),
            actors.bullets == pre.bullets,
            actors.explosions == pre.explosions,
            actors.tokens == pre.tokens,
            actors.px == pre.px,
            actors.py == pre.py,
            actors.total_actors() >= pre.total_actors(),
            actors.total_actors() <= if pre.total_actors() > max_actors {
                pre.total_actors()
            } else {
                max_actors as int
            },
            forall|k: int|
                pre.spaceships@.len() <= k < actors.spaceships@.len()
                    ==> spawned_in_window((#[trigger] actors.spaceships@[k]).view(), cam),
            forall|k: int|
                pre.asteroids@.len() <= k < actors.asteroids@.len()
                    ==> spawned_in_window((#[trigger] actors.asteroids@[k]).view(), cam),
            forall|k: int|
                pre.kamikaze@.len() <= k < actors.kamikaze@.len()
                    ==> spawned_in_window((#[trigger] actors.kamikaze@[k]).view(), cam)
                        && actors.kamikaze@[k].view().rotation == crate::trig::bearing(
                            cam.0 - actors.kamikaze@[k].view().x,
                            cam.1 - actors.kamikaze@[k].view().y,
                        ) as i64,
            cam == (cx, cy),
            -COORD_LIMIT <= cx <= COORD_LIMIT,
            -COORD_LIMIT <= cy <= COORD_LIMIT,
            0 <= attempts <= SPAWN_ATTEMPT_LIMIT,
        decreases SPAWN_ATTEMPT_LIMIT - attempts,
    {
        let ghost before = *actors;
        attempts = attempts + 1;
        let x = clamp_add(cx, random_in_range(-SPAWN_WINDOW, SPAWN_WINDOW), COORD_LIMIT);
        let y = clamp_add(cy, random_in_range(-SPAWN_WINDOW, SPAWN_WINDOW), COORD_LIMIT);
        let distance_squared = dist_sq_milli(cx, cy, x, y);
        if distance_squared > SPAWN_CLEARANCE_SQUARED {
            proof {
                assert(cx - SPAWN_WINDOW <= x <= cx + SPAWN_WINDOW);
                assert(cy - SPAWN_WINDOW <= y <= cy + SPAWN_WINDOW);
            }
            let category = random_in_range(0, 100);
            if category <= 75 {
                actors.new_asteroid(x, y);
            } else if category <= 82 {
                actors.new_spaceship(x, y);
            } else if category <= 85 {
                actors.new_kamikaze(x, y, (cx, cy));
            }
        }
        proof {
            if before.spaceships@.is_prefix_of(actors.spaceships@) {
                assert(pre.spaceships@.is_prefix_of(actors.spaceships@));
            }
            if before.asteroids@.is_prefix_of(actors.asteroids@) {
                assert(pre.asteroids@.is_prefix_of(actors.asteroids@));
            }
            if before.kamikaze@.is_prefix_of(actors.kamikaze@) {
                assert(pre.kamikaze@.is_prefix_of(actors.kamikaze@));
            }
            assert forall|k: int|
                pre.spaceships@.len() <= k < actors.spaceships@.len()
                implies spawned_in_window((#[trigger] actors.spaceships@[k]).view(), cam) by {
                if k < before.spaceships@.len() {
                    assert(actors.spaceships@[k] == before.spaceships@[k]);
                }
            }
            assert forall|k: int|
                pre.asteroids@.len() <= k < actors.asteroids@.len()
                implies spawned_in_window((#[trigger] actors.asteroids@[k]).view(), cam) by {
                if k < before.asteroids@.len() {
                    assert(actors.asteroids@[k] == before.asteroids@[k]);
                }
            }
            assert forall|k: int|
                pre.kamikaze@.len() <= k < actors.kamikaze@.len()
                implies spawned_in_window((#[trigger] actors.kamikaze@[k]).view(), cam)
                    && actors.kamikaze@[k].view().rotation == crate::trig::bearing(
                        cam.0 - actors.kamikaze@[k].view().x,
                        cam.1 - actors.kamikaze@[k].view().y,
                    ) as i64 by {
                if k < before.kamikaze@.len() {
                    assert(actors.kamikaze@[k] == before.kamikaze@[k]);
                }
            }
        }
    }
}

/// The debounced restart monitor: it counts down across consecutive
/// once-per-second observations of the player's absence and asks for a
/// restart only when the countdown is exhausted, then rearms itself.
#[derive(Clone, Copy, Debug, PartialEq, Eq, Structural)]
pub struct RestartMonitor {
    pub countdown: u32,
}

impl RestartMonitor {
    /// A fresh monitor with the full debounce window ahead of it.
    pub fn new() -> (m: RestartMonitor)
        ensures
            m == (RestartMonitor { countdown: RESTART_DEBOUNCE }),
    {
        RestartMonitor { countdown: RESTART_DEBOUNCE }
    }

    /// One once-per-second observation.  While the player is absent the
    /// countdown shrinks; the observation that finds it exhausted asks for
    /// the restart and rearms the window.  Observing the player present
    /// rearms the window, so only an absence persisting across consecutive
    /// checks triggers a restart.
    pub fn observe(&mut self, player_absent: bool) -> (restart_now: bool)
        ensures
            restart_now == (player_absent && old(self).countdown == 0),
            final(self).countdown == if player_absent && old(self).countdown > 0 {
                old(self).countdown - 1
            } else {
                RESTART_DEBOUNCE as int
            },
    {
        if player_absent {
            if self.countdown > 0 {
                self.countdown = self.countdown - 1;
                false
            } else {
                self.countdown = RESTART_DEBOUNCE;
                true
            }
        } else {
            self.countdown = RESTART_DEBOUNCE;
            false
        }
    }
}

} // verus!
