//! The actor manager: one collection per variant, one id counter, and the
//! per-tick pipeline.
//!
//! The manager owns the only id counter; ids are minted strictly increasing,
//! so every live actor's id is unique, at most `count`, and never reused.
//! Each tick it routes instructions to matching actors, updates them, culls
//! far-away actors, prunes the dead, and turns the tick's events into spawns.

use vstd::prelude::*;
use crate::actor::Actor;
use crate::actor::ActorView;
use crate::actor::all_wf;
use crate::actor::appends;
use crate::actor::CollisionType;
use crate::actor::has_id;
use crate::actor::ids_between;
use crate::actor::ids_disjoint;
use crate::actor::ids_strictly_increasing;
use crate::actor::lemma_appends_trans;
use crate::actor::model_seq;
use crate::actor::pruned;
use crate::actor::views_of;
use crate::actor::ViewModel;
use crate::actor::PLAYER_ID;
use crate::asteroid::Asteroid;
use crate::bullet::Bullet;
use crate::explosion::Explosion;
use crate::fixed::COORD_LIMIT;
use crate::game::collects;
use crate::kamikaze::Kamikaze;
use crate::messages::GameInstructions;
use crate::messages::PlayerInstructions;
use crate::rng::random_in_range;
use crate::spaceship::Spaceship;
use crate::spaceship_agent::set_instructions;
use crate::token::Token;

verus! {

/// Distance from the reference point past which non-player, non-collectible
/// actors are despawned, in milli-units, squared.
pub const CULL_DISTANCE_SQUARED: i128 = 16_000_000_000_000;

/// The agent's sensor radius, in milli-units, squared.
pub const SENSOR_DISTANCE_SQUARED: i128 = 4_000_000_000_000;

/// How many fire events `events` holds.
pub open spec fn fire_count(events: Seq<(GameInstructions, ActorView)>) -> int
    decreases events.len(),
{
    if events.len() == 0 {
        0
    } else {
        fire_count(events.drop_last()) + if events.last().0 == GameInstructions::Fire {
            1int
        } else {
            0int
        }
    }
}

/// How many explode events `events` holds.
pub open spec fn explode_count(events: Seq<(GameInstructions, ActorView)>) -> int
    decreases events.len(),
{
    if events.len() == 0 {
        0
    } else {
        explode_count(events.drop_last()) + if events.last().0 == GameInstructions::Explode {
            1int
        } else {
            0int
        }
    }
}

/// How many asteroid-split events `events` holds.
pub open spec fn split_count(events: Seq<(GameInstructions, ActorView)>) -> int
    decreases events.len(),
{
    if events.len() == 0 {
        0
    } else {
        split_count(events.drop_last()) + if events.last().0 == GameInstructions::NewAsteroid {
            1int
        } else {
            0int
        }
    }
}

/// How many fresh ids the events of `events` mint.
pub open spec fn spawn_count(events: Seq<(GameInstructions, ActorView)>) -> int {
    fire_count(events) + 2 * split_count(events) + collects(events)
}

/// What one event's processing left in the world: the fire event's bullet,
/// the split event's two half-size sibling-linked fragments, the explode
/// event's explosion, each at a position in its collection determined by
/// the events before it, with ids minted in processing order.
pub open spec fn event_effect(
    pre: ActorManager,
    events: Seq<(GameInstructions, ActorView)>,
    i: int,
    post: ActorManager,
) -> bool {
    let v = events[i].1@;
    let fresh = pre.count + spawn_count(events.take(i)) + 1;
    if events[i].0 == GameInstructions::Fire {
        let at = pre.bullets@.len() + fire_count(events.take(i));
        &&& 0 <= at < post.bullets@.len()
        &&& (#[trigger] post.bullets@[at]).view().id == fresh
        &&& post.bullets@[at].view().parent == v.id
        &&& post.bullets@[at].view().x == v.x
        &&& post.bullets@[at].view().y == v.y
        &&& post.bullets@[at].view().rotation == v.rotation
        &&& post.bullets@[at].alive()
    } else if events[i].0 == GameInstructions::NewAsteroid {
        let at = pre.asteroids@.len() + 2 * split_count(events.take(i));
        &&& 0 <= at && at + 1 < post.asteroids@.len()
        &&& (#[trigger] post.asteroids@[at]).view().id == fresh
        &&& post.asteroids@[at + 1].view().id == fresh + 1
        &&& post.asteroids@[at].view().x == v.x
        &&& post.asteroids@[at].view().y == v.y
        &&& post.asteroids@[at + 1].view().x == v.x
        &&& post.asteroids@[at + 1].view().y == v.y
        &&& post.asteroids@[at].view().width == v.width / 2
        &&& post.asteroids@[at + 1].view().width == v.width / 2
        &&& post.asteroids@[at].view().parent == 0
        &&& post.asteroids@[at + 1].view().parent == fresh
        &&& post.asteroids@[at].alive()
        &&& post.asteroids@[at + 1].alive()
    } else if events[i].0 == GameInstructions::Explode {
        let at = pre.explosions@.len() + explode_count(events.take(i));
        &&& 0 <= at < post.explosions@.len()
        &&& (#[trigger] post.explosions@[at]).view().x == v.x
        &&& post.explosions@[at].view().y == v.y
        &&& post.explosions@[at].alive()
    } else {
        true
    }
}

/// The exact spaceship the player starts with.
pub open spec fn player_ship() -> Spaceship {
    Spaceship {
        id: PLAYER_ID,
        x: 0,
        y: 0,
        acc_x: 0,
        acc_y: 0,
        rotation: 0,
        is_accelerating: false,
        is_decelerating: false,
        is_rotating_right: false,
        is_rotating_left: false,
        is_alive: true,
        shield: false,
        fire_countdown: 0,
        shield_timer: crate::spaceship::SHIELD_TIME,
        thrust_timer: 0,
        color: (700i64, 700i64, 770i64),
        normal_color: (700i64, 700i64, 770i64),
        secondary_color: (1000i64, 1000i64, 700i64),
        thrust_flame: true,
    }
}

/// Owns one homogeneous collection per actor variant, the shared id counter
/// and the culling reference point.
pub struct ActorManager {
    pub spaceships: Vec<Spaceship>,
    pub bullets: Vec<Bullet>,
    pub asteroids: Vec<Asteroid>,
    pub kamikaze: Vec<Kamikaze>,
    pub explosions: Vec<Explosion>,
    pub tokens: Vec<Token>,
    pub count: i32,
    pub px: i64,
    pub py: i64,
}

impl ActorManager {
    /// The manager's invariant: every actor satisfies its own invariant; ids
    /// are strictly increasing within each collection, positive, at most the
    /// counter, reserved to the player only in the spaceship collection, and
    /// never shared across collections; explosions carry the sentinel id.
    pub open spec fn wf(&self) -> bool {
        &&& all_wf(self.spaceships@)
        &&& all_wf(self.bullets@)
        &&& all_wf(self.asteroids@)
        &&& all_wf(self.kamikaze@)
        &&& all_wf(self.explosions@)
        &&& all_wf(self.tokens@)
        &&& ids_strictly_increasing(self.spaceships@)
        &&& ids_strictly_increasing(self.bullets@)
        &&& ids_strictly_increasing(self.asteroids@)
        &&& ids_strictly_increasing(self.kamikaze@)
        &&& ids_strictly_increasing(self.tokens@)
        &&& ids_between(self.spaceships@, 1, self.count as int)
        &&& ids_between(self.bullets@, 2, self.count as int)
        &&& ids_between(self.asteroids@, 2, self.count as int)
        &&& ids_between(self.kamikaze@, 2, self.count as int)
        &&& ids_between(self.tokens@, 2, self.count as int)
        &&& ids_between(self.explosions@, 0, 0)
        &&& ids_disjoint(self.spaceships@, self.bullets@)
        &&& ids_disjoint(self.spaceships@, self.asteroids@)
        &&& ids_disjoint(self.spaceships@, self.kamikaze@)
        &&& ids_disjoint(self.spaceships@, self.tokens@)
        &&& ids_disjoint(self.bullets@, self.asteroids@)
        &&& ids_disjoint(self.bullets@, self.kamikaze@)
        &&& ids_disjoint(self.bullets@, self.tokens@)
        &&& ids_disjoint(self.asteroids@, self.kamikaze@)
        &&& ids_disjoint(self.asteroids@, self.tokens@)
        &&& ids_disjoint(self.kamikaze@, self.tokens@)
        &&& 1 <= self.count
        &&& -COORD_LIMIT <= self.px <= COORD_LIMIT
        &&& -COORD_LIMIT <= self.py <= COORD_LIMIT
    }

    /// The snapshots of every actor, collection by collection.
    pub open spec fn all_views(&self) -> Seq<ViewModel> {
        views_of(self.spaceships@) + views_of(self.bullets@) + views_of(self.asteroids@)
            + views_of(self.kamikaze@) + views_of(self.explosions@) + views_of(self.tokens@)
    }

    /// How many actors the world holds, over all collections.
    pub open spec fn total_actors(&self) -> int {
        self.spaceships@.len() + self.bullets@.len() + self.asteroids@.len()
            + self.kamikaze@.len() + self.explosions@.len() + self.tokens@.len() as int
    }

    /// Counts the actors of the world, over all collections.
    pub fn total_count(&self) -> (n: usize)
        requires
            self.wf(),
        ensures
            n == self.total_actors(),
    {
        let all = self.get();
        proof {
            assert(all@.len() == self.all_views().len());
        }
        all.len()
    }

    /// An empty world: no actors, the counter at its start, the reference
    /// point at the origin.
    pub fn new() -> (m: ActorManager)
        ensures
            m.wf(),
            m.spaceships@.len() == 0,
            m.bullets@.len() == 0,
            m.asteroids@.len() == 0,
            m.kamikaze@.len() == 0,
            m.explosions@.len() == 0,
            m.tokens@.len() == 0,
            m.count == 1,
            m.px == 0,
            m.py == 0,
    {
        ActorManager {
            spaceships: Vec::new(),
            bullets: Vec::new(),
            asteroids: Vec::new(),
            kamikaze: Vec::new(),
            explosions: Vec::new(),
            tokens: Vec::new(),
            count: 1,
            px: 0,
            py: 0,
        }
    }

    /// The snapshots of one collection, in order.
    fn get_views<T: Actor>(list: &Vec<T>) -> (r: Vec<ActorView>)
        requires
            all_wf(list@),
        ensures
            model_seq(r@) == views_of(list@),
            r@.len() == list@.len(),
            forall|k: int| 0 <= k < r@.len() ==> (#[trigger] r@[k])@.wf(),
    {
        let mut r: Vec<ActorView> = Vec::new();
        let mut i: usize = 0;
        while i < list.len()
            invariant
                0 <= i <= list@.len(),
                all_wf(list@),
                r@.len() == i,
                forall|k: int| 0 <= k < i ==> (#[trigger] r@[k])@ == list@[k].view(),
                forall|k: int| 0 <= k < i ==> (#[trigger] r@[k])@.wf(),
            decreases list@.len() - i,
        {
            let v = list[i].get_view();
            r.push(v);
            i = i + 1;
        }
        proof {
            assert(model_seq(r@) =~= views_of(list@));
        }
        r
    }

    /// A full snapshot of the world for rendering and collision detection.
    pub fn get(&self) -> (r: Vec<ActorView>)
        requires
            self.wf(),
        ensures
            model_seq(r@) == self.all_views(),
            forall|k: int| 0 <= k < r@.len() ==> (#[trigger] r@[k])@.wf(),
    {
        let mut all_views = Self::get_views(&self.spaceships);
        let mut more = Self::get_views(&self.bullets);
        all_views.append(&mut more);
        let mut more = Self::get_views(&self.asteroids);
        all_views.append(&mut more);
        let mut more = Self::get_views(&self.kamikaze);
        all_views.append(&mut more);
        let mut more = Self::get_views(&self.explosions);
        all_views.append(&mut more);
        let mut more = Self::get_views(&self.tokens);
        all_views.append(&mut more);
        proof {
            assert(model_seq(all_views@) =~= self.all_views());
        }
        all_views
    }

    /// The snapshots of the collectible tokens only, for the HUD indicator.
    pub fn get_collectables(&self) -> (r: Vec<ActorView>)
        requires
            self.wf(),
        ensures
            model_seq(r@) == views_of(self.tokens@),
            forall|k: int| 0 <= k < r@.len() ==> (#[trigger] r@[k])@.wf(),
    {
        Self::get_views(&self.tokens)
    }

    /// Adds a ready-made player ship to an empty world, keeping the id
    /// discipline intact.
    pub fn add_spaceship(&mut self, ship: Spaceship)
        requires
            old(self).wf(),
            old(self).spaceships@.len() == 0,
            ship.wf(),
            ship.view().id == PLAYER_ID,
        ensures
            final(self).wf(),
            final(self).spaceships@ =~= seq![ship],
            *final(self) == (ActorManager { spaceships: final(self).spaceships, ..*old(self) }),
    {
        self.spaceships.push(ship);
    }

    /// Spawns the player's ship at the origin.  Only meaningful in an empty
    /// world: the player's id is minted outside the counter.
    pub fn new_player(&mut self)
        requires
            old(self).wf(),
            old(self).spaceships@.len() == 0,
        ensures
            final(self).wf(),
            final(self).spaceships@ =~= seq![player_ship()],
            *final(self) == (ActorManager { spaceships: final(self).spaceships, ..*old(self) }),
    {
        let mut p = Spaceship::new(PLAYER_ID, 0, 0, 0);
        let mut c: Vec<i64> = Vec::new();
        c.push(700);
        c.push(700);
        c.push(770);
        p.set_color(c);
        proof {
            assert(p == player_ship());
        }
        self.spaceships.push(p);
    }

    /// Replaces the token population with one fresh token at a random spot.
    pub fn new_token(&mut self)
        requires
            old(self).wf(),
            old(self).count < i32::MAX,
        ensures
            final(self).wf(),
            final(self).count == old(self).count + 1,
            final(self).tokens@.len() == 1,
            final(self).tokens@[0].view().id == old(self).count + 1,
            final(self).tokens@[0].alive(),
            final(self).tokens@[0].view().collision_type == CollisionType::Collect,
            -10_000_000 <= final(self).tokens@[0].view().x < 10_000_000,
            -10_000_000 <= final(self).tokens@[0].view().y < 10_000_000,
            *final(self) == (ActorManager {
                tokens: final(self).tokens,
                count: final(self).count,
                ..*old(self)
            }),
    {
        self.count = self.count + 1;
        let id = self.count;
        let x = random_in_range(-10_000_000, 10_000_000);
        let y = random_in_range(-10_000_000, 10_000_000);
        let t = Token::new(id, x, y);
        let mut tokens: Vec<Token> = Vec::new();
        tokens.push(t);
        self.tokens = tokens;
    }

    /// Spawns an agent-controlled ship at `(x, y)` milli-units with a random
    /// heading.
    pub fn new_spaceship(&mut self, x: i64, y: i64)
        requires
            old(self).wf(),
            old(self).count < i32::MAX,
            -COORD_LIMIT <= x <= COORD_LIMIT,
            -COORD_LIMIT <= y <= COORD_LIMIT,
        ensures
            final(self).wf(),
            final(self).count == old(self).count + 1,
            final(self).spaceships@.len() == old(self).spaceships@.len() + 1,
            final(self).spaceships@.subrange(0, old(self).spaceships@.len() as int)
                == old(self).spaceships@,
            ({
                let s = final(self).spaceships@.last();
                &&& s.view().id == old(self).count + 1
                &&& s.view().x == x
                &&& s.view().y == y
                &&& s.alive()
            }),
            *final(self) == (ActorManager {
                spaceships: final(self).spaceships,
                count: final(self).count,
                ..*old(self)
            }),
    {
        self.count = self.count + 1;
        let id = self.count;
        let r = random_in_range(0, 360000);
        let ship = Spaceship::new(id, x, y, r);
        self.spaceships.push(ship);
        proof {
            assert(final(self).spaceships@.subrange(0, old(self).spaceships@.len() as int)
                =~= old(self).spaceships@);
        }
    }

    /// Spawns an asteroid of random size at `(x, y)` milli-units.
    pub fn new_asteroid(&mut self, x: i64, y: i64)
        requires
            old(self).wf(),
            old(self).count < i32::MAX,
            -COORD_LIMIT <= x <= COORD_LIMIT,
            -COORD_LIMIT <= y <= COORD_LIMIT,
        ensures
            final(self).wf(),
            final(self).count == old(self).count + 1,
            final(self).asteroids@.len() == old(self).asteroids@.len() + 1,
            final(self).asteroids@.subrange(0, old(self).asteroids@.len() as int)
                == old(self).asteroids@,
            ({
                let a = final(self).asteroids@.last();
                &&& a.view().id == old(self).count + 1
                &&& a.view().x == x
                &&& a.view().y == y
                &&& a.alive()
            }),
            *final(self) == (ActorManager {
                asteroids: final(self).asteroids,
                count: final(self).count,
                ..*old(self)
            }),
    {
        self.count = self.count + 1;
        let id = self.count;
        let ast = Asteroid::new(id, x, y);
        self.asteroids.push(ast);
        proof {
            assert(final(self).asteroids@.subrange(0, old(self).asteroids@.len() as int)
                =~= old(self).asteroids@);
        }
    }

    /// Spawns a kamikaze at `(x, y)` milli-units aimed at the target point.
    pub fn new_kamikaze(&mut self, x: i64, y: i64, target: (i64, i64))
        requires
            old(self).wf(),
            old(self).count < i32::MAX,
            -COORD_LIMIT <= x <= COORD_LIMIT,
            -COORD_LIMIT <= y <= COORD_LIMIT,
            -COORD_LIMIT <= target.0 <= COORD_LIMIT,
            -COORD_LIMIT <= target.1 <= COORD_LIMIT,
        ensures
            final(self).wf(),
            final(self).count == old(self).count + 1,
            final(self).kamikaze@.len() == old(self).kamikaze@.len() + 1,
            final(self).kamikaze@.subrange(0, old(self).kamikaze@.len() as int)
                == old(self).kamikaze@,
            ({
                let k = final(self).kamikaze@.last();
                &&& k.view().id == old(self).count + 1
                &&& k.view().x == x
                &&& k.view().y == y
                &&& k.view().rotation == crate::trig::bearing(target.0 - x, target.1 - y) as i64
                &&& k.alive()
            }),
            *final(self) == (ActorManager {
                kamikaze: final(self).kamikaze,
                count: final(self).count,
                ..*old(self)
            }),
    {
        self.count = self.count + 1;
        let id = self.count;
        let kam = Kamikaze::new(id, x, y, target);
        self.kamikaze.push(kam);
        proof {
            assert(final(self).kamikaze@.subrange(0, old(self).kamikaze@.len() as int)
                =~= old(self).kamikaze@);
        }
    }

    /// Turns one asteroid-split event into two half-size fragments.  The
    /// second fragment records the first as its parent, so the fresh pair
    /// never collides with itself.
    pub fn split_asteroid(&mut self, original: &ActorView)
        requires
            old(self).wf(),
            old(self).count < i32::MAX - 1,
            original@.wf(),
        ensures
            final(self).wf(),
            final(self).count == old(self).count + 2,
            final(self).asteroids@.len() == old(self).asteroids@.len() + 2,
            final(self).asteroids@.subrange(0, old(self).asteroids@.len() as int)
                == old(self).asteroids@,
            ({
                let n = old(self).asteroids@.len() as int;
                let first = final(self).asteroids@[n];
                let second = final(self).asteroids@[n + 1];
                &&& first.view().id == old(self).count + 1
                &&& second.view().id == old(self).count + 2
                &&& first.view().x == original@.x
                &&& first.view().y == original@.y
                &&& second.view().x == original@.x
                &&& second.view().y == original@.y
                &&& first.view().width == original@.width / 2
                &&& second.view().width == original@.width / 2
                &&& first.view().parent == 0
                &&& second.view().parent == old(self).count + 1
                &&& first.alive()
                &&& second.alive()
            }),
            *final(self) == (ActorManager {
                asteroids: final(self).asteroids,
                count: final(self).count,
                ..*old(self)
            }),
    {
        self.count = self.count + 1;
        let id = self.count;
        let d = original.width / 2;
        let ast = Asteroid::new_with_d(id, original.x, original.y, d, 0);
        self.asteroids.push(ast);
        self.count = self.count + 1;
        let id2 = self.count;
        let ast2 = Asteroid::new_with_d(id2, original.x, original.y, d, id);
        self.asteroids.push(ast2);
        proof {
            assert(final(self).asteroids@.subrange(0, old(self).asteroids@.len() as int)
                =~= old(self).asteroids@);
        }
    }

    /// Spawns the bullet a fire event asked for: the firer becomes the
    /// bullet's parent, position and rotation come from the event snapshot.
    fn add_bullet(&mut self, parent: i32, x: i64, y: i64, rotation: i64)
        requires
            old(self).wf(),
            old(self).count < i32::MAX,
            -COORD_LIMIT <= x <= COORD_LIMIT,
            -COORD_LIMIT <= y <= COORD_LIMIT,
            0 <= rotation < 360000,
        ensures
            final(self).wf(),
            final(self).count == old(self).count + 1,
            final(self).bullets@.len() == old(self).bullets@.len() + 1,
            final(self).bullets@.subrange(0, old(self).bullets@.len() as int)
                == old(self).bullets@,
            ({
                let b = final(self).bullets@.last();
                &&& b.view().id == old(self).count + 1
                &&& b.view().parent == parent
                &&& b.view().x == x
                &&& b.view().y == y
                &&& b.view().rotation == rotation
                &&& b.alive()
            }),
            *final(self) == (ActorManager {
                bullets: final(self).bullets,
                count: final(self).count,
                ..*old(self)
            }),
    {
        self.count = self.count + 1;
        let id = self.count;
        let bullet = Bullet::new(id, parent, x, y, rotation);
        self.bullets.push(bullet);
        proof {
            assert(final(self).bullets@.subrange(0, old(self).bullets@.len() as int)
                =~= old(self).bullets@);
        }
    }

    /// Spawns the explosion an explode event asked for.
    fn add_explosion(&mut self, x: i64, y: i64, d: i64, rotation: i64)
        requires
            old(self).wf(),
            -COORD_LIMIT <= x <= COORD_LIMIT,
            -COORD_LIMIT <= y <= COORD_LIMIT,
            0 <= d <= crate::actor::SIZE_LIMIT,
            0 <= rotation < 360000,
        ensures
            final(self).wf(),
            final(self).explosions@.len() == old(self).explosions@.len() + 1,
            final(self).explosions@.subrange(0, old(self).explosions@.len() as int)
                == old(self).explosions@,
            final(self).explosions@.last().view().x == x,
            final(self).explosions@.last().view().y == y,
            final(self).explosions@.last().alive(),
            *final(self) == (ActorManager {
                explosions: final(self).explosions,
                ..*old(self)
            }),
    {
        let expl = Explosion::new(x, y, d, rotation);
        self.explosions.push(expl);
        proof {
            assert(final(self).explosions@.subrange(0, old(self).explosions@.len() as int)
                =~= old(self).explosions@);
        }
    }

    /// The snapshots within the agent's sensor radius of `actor`, excluding
    /// `actor` itself: exactly the in-range foreign views, in collection
    /// order.
    fn get_nearest(&self, actor: &ActorView) -> (r: Vec<ActorView>)
        requires
            self.wf(),
            actor@.wf(),
        ensures
            model_seq(r@) == nearby_views(self.all_views(), actor@),
            forall|k: int| 0 <= k < r@.len() ==> (#[trigger] r@[k])@.wf(),
    {
        let all = self.get();
        proof {
            assert(all@.len() == self.all_views().len());
            assert forall|k: int| 0 <= k < all@.len() implies (#[trigger] all@[k])@
                == self.all_views()[k] by {
                assert(model_seq(all@)[k] == all@[k]@);
            }
        }
        filter_nearby(&all, actor)
    }

    /// One tick over a single collection: far-away non-player, non-collect
    /// actors are killed on the spot; everyone else receives its matching
    /// instructions, updates, and survives into the new list only if alive.
    fn update_actor_list<T: Actor>(
        px: i64,
        py: i64,
        list: &mut Vec<T>,
        messages: &Vec<(i32, PlayerInstructions)>,
        output_messages: &mut Vec<(GameInstructions, ActorView)>,
    )
        requires
            -COORD_LIMIT <= px <= COORD_LIMIT,
            -COORD_LIMIT <= py <= COORD_LIMIT,
            all_wf(old(list)@),
        ensures
            all_wf(final(list)@),
            ids_strictly_increasing(old(list)@) ==> ids_strictly_increasing(final(list)@),
            pruned(old(list)@, final(list)@),
            final(list)@.len() <= old(list)@.len(),
            appends(old(output_messages)@, final(output_messages)@),
            forall|j: int|
                0 <= j < old(list)@.len() && (#[trigger] old(list)@[j]).alive()
                    && (old(list)@[j].view().id == PLAYER_ID
                        || old(list)@[j].view().collision_type == CollisionType::Collect)
                    && crate::actor::steps_keep_alive::<T>(messages@, old(list)@[j].view().id)
                    ==> has_id(final(list)@, old(list)@[j].view().id as int),
            update_pass(
                px as int,
                py as int,
                old(list)@,
                messages@,
                final(list)@,
                final(output_messages)@.skip(old(output_messages)@.len() as int),
            ),
    {
        let ghost orig = old(list)@;
        let ghost out0 = old(output_messages)@;
        let ghost mut processed: int = 0;
        let ghost mut outcome: Seq<Option<T>> = Seq::empty();
        let ghost mut cuts: Seq<int> = Seq::<int>::empty().push(0);
        let ghost mut slot: Seq<int> = Seq::empty();
        let ghost mut origin: Seq<int> = Seq::empty();
        let mut new_list: Vec<T> = Vec::new();
        proof {
            crate::actor::lemma_appends_refl(out0);
            assert(output_messages@.skip(out0.len() as int) =~= Seq::<(
                GameInstructions,
                ActorView,
            )>::empty());
            assert(orig.take(0) =~= Seq::<T>::empty());
            assert(pass_record(
                px as int,
                py as int,
                orig.take(0),
                messages@,
                new_list@,
                output_messages@.skip(out0.len() as int),
                outcome,
                cuts,
                slot,
                origin,
            ));
        }
        while list.len() > 0
            invariant
                0 <= processed <= orig.len(),
                list@ == orig.skip(processed),
                all_wf(orig),
                -COORD_LIMIT <= px <= COORD_LIMIT,
                -COORD_LIMIT <= py <= COORD_LIMIT,
                all_wf(new_list@),
                ids_strictly_increasing(orig) ==> ids_strictly_increasing(new_list@),
                forall|k: int| 0 <= k < new_list@.len() ==> (#[trigger] new_list@[k]).alive(),
                forall|k: int|
                    #![trigger new_list@[k]]
                    0 <= k < new_list@.len()
                        ==> exists|j: int|
                            0 <= j < orig.len() && new_list@[k].view().id
                                == (#[trigger] orig[j]).view().id && orig[j].alive(),
                ids_strictly_increasing(orig) ==> forall|k: int, j: int|
                    0 <= k < new_list@.len() && processed <= j < orig.len()
                        ==> (#[trigger] new_list@[k]).view().id < (#[trigger] orig[j]).view().id,
                new_list@.len() <= processed,
                forall|j: int|
                    0 <= j < processed && (#[trigger] orig[j]).alive()
                        && (orig[j].view().id == PLAYER_ID
                            || orig[j].view().collision_type == CollisionType::Collect)
                        && crate::actor::steps_keep_alive::<T>(messages@, orig[j].view().id)
                        ==> has_id(new_list@, orig[j].view().id as int),
                pass_record(
                    px as int,
                    py as int,
                    orig.take(processed),
                    messages@,
                    new_list@,
                    output_messages@.skip(out0.len() as int),
                    outcome,
                    cuts,
                    slot,
                    origin,
                ),
                appends(out0, output_messages@),
            decreases list@.len(),
        {
            proof {
                assert(orig.skip(processed)[0] == orig[processed]);
                assert(orig.skip(processed).remove(0) =~= orig.skip(processed + 1));
            }
            let mut actor = list.remove(0);
            let ghost entering = actor;
            let ghost out_entry = output_messages@;
            let ghost pre_new_list = new_list@;
            let ghost pre_outcome = outcome;
            let ghost pre_cuts = cuts;
            let ghost pre_slot = slot;
            let ghost pre_origin = origin;
            let v = actor.get_view();
            let mut culled = false;
            if actor.get_id() != PLAYER_ID && !(v.collision_type == CollisionType::Collect) {
                let distance_squared = crate::fixed::dist_sq_milli(px, py, v.x, v.y);
                if distance_squared > CULL_DISTANCE_SQUARED {
                    actor.kill();
                    culled = true;
                    proof {
                        assert(marked_for_cull(px as int, py as int, entering));
                        lemma_pass_record_cull(
                            px as int,
                            py as int,
                            orig.take(processed),
                            messages@,
                            new_list@,
                            output_messages@.skip(out0.len() as int),
                            pre_outcome,
                            pre_cuts,
                            pre_slot,
                            pre_origin,
                            entering,
                        );
                        outcome = pre_outcome.push(None);
                        cuts = pre_cuts.push(
                            output_messages@.skip(out0.len() as int).len() as int,
                        );
                        slot = pre_slot.push(-1);
                        assert(orig.take(processed).push(entering) =~= orig.take(processed + 1));
                    }
                }
            }
            if !culled {
                proof {
                    crate::actor::lemma_appends_refl(out_entry);
                    assert(!marked_for_cull(px as int, py as int, entering));
                    assert(messages@.take(0) =~= Seq::<(i32, PlayerInstructions)>::empty());
                    assert(crate::actor::routed_to(messages@.take(0), entering.view().id)
                        =~= Seq::<PlayerInstructions>::empty());
                    assert(output_messages@.skip(out_entry.len() as int) =~= Seq::<(
                        GameInstructions,
                        ActorView,
                    )>::empty());
                    crate::actor::lemma_executed_all_base(actor);
                }
                let mut m: usize = 0;
                while m < messages.len()
                    invariant
                        0 <= m <= messages@.len(),
                        actor.wf(),
                        actor.view().id == entering.view().id,
                        actor.alive() ==> entering.alive(),
                        crate::actor::steps_keep_alive::<T>(messages@, entering.view().id)
                            && entering.alive() ==> actor.alive(),
                        appends(out_entry, output_messages@),
                        crate::actor::executed_all(
                            entering,
                            crate::actor::routed_to(messages@.take(m as int), entering.view().id),
                            actor,
                            output_messages@.skip(out_entry.len() as int),
                        ),
                    decreases messages@.len() - m,
                {
                    let ghost out_before = output_messages@;
                    let ghost actor_before = actor;
                    let ghost gm = m as int;
                    proof {
                        assert(messages@.take(gm + 1).drop_last() =~= messages@.take(gm));
                        assert(messages@.take(gm + 1).last() == messages@[gm]);
                    }
                    let (mid, instr) = &messages[m];
                    if *mid == actor.get_id() {
                        proof {
                            assert(messages@[gm] == (entering.view().id, *instr));
                            assert(messages@.contains((entering.view().id, *instr)));
                        }
                        actor.execute(instr, output_messages);
                        proof {
                            lemma_appends_trans(out_entry, out_before, output_messages@);
                            crate::actor::lemma_executed_all_step(
                                entering,
                                crate::actor::routed_to(
                                    messages@.take(gm),
                                    entering.view().id,
                                ),
                                actor_before,
                                out_before.skip(out_entry.len() as int),
                                *instr,
                                actor,
                                output_messages@.skip(out_before.len() as int),
                            );
                            crate::actor::lemma_skip_chain(
                                out_entry,
                                out_before,
                                output_messages@,
                            );
                            assert(crate::actor::routed_to(
                                messages@.take(gm + 1),
                                entering.view().id,
                            ) =~= crate::actor::routed_to(
                                messages@.take(gm),
                                entering.view().id,
                            ).push(*instr));
                        }
                    } else {
                        proof {
                            assert(crate::actor::routed_to(
                                messages@.take(gm + 1),
                                entering.view().id,
                            ) =~= crate::actor::routed_to(
                                messages@.take(gm),
                                entering.view().id,
                            ));
                        }
                    }
                    m = m + 1;
                }
                let ghost out_mid = output_messages@;
                let ghost actor_mid = actor;
                actor.update(output_messages);
                proof {
                    lemma_appends_trans(out_entry, out_mid, output_messages@);
                    lemma_appends_trans(out0, out_entry, output_messages@);
                    if crate::actor::steps_keep_alive::<T>(messages@, entering.view().id)
                        && entering.alive() {
                        assert(actor.alive());
                    }
                    assert(messages@.take(messages@.len() as int) =~= messages@);
                    crate::actor::lemma_stepped(
                        entering,
                        messages@,
                        actor_mid,
                        out_mid.skip(out_entry.len() as int),
                        actor,
                        output_messages@.skip(out_mid.len() as int),
                    );
                    crate::actor::lemma_skip_chain(out_entry, out_mid, output_messages@);
                    assert(crate::actor::stepped(
                        entering,
                        messages@,
                        actor,
                        output_messages@.skip(out_entry.len() as int),
                    ));
                    crate::actor::lemma_skip_chain(out0, out_entry, output_messages@);
                }
                if actor.is_alive() {
                    proof {
                        lemma_pass_record_keep(
                            px as int,
                            py as int,
                            orig.take(processed),
                            messages@,
                            new_list@,
                            out_entry.skip(out0.len() as int),
                            pre_outcome,
                            pre_cuts,
                            pre_slot,
                            pre_origin,
                            entering,
                            actor,
                            output_messages@.skip(out_entry.len() as int),
                        );
                        outcome = pre_outcome.push(Some(actor));
                        cuts = pre_cuts.push(output_messages@.skip(out0.len() as int).len() as int);
                        slot = pre_slot.push(new_list@.len() as int);
                        origin = pre_origin.push(processed);
                    }
                    new_list.push(actor);
                    proof {
                        assert(new_list@ =~= pre_new_list.push(actor));
                        assert(output_messages@.skip(out0.len() as int) =~= out_entry.skip(
                            out0.len() as int,
                        ) + output_messages@.skip(out_entry.len() as int));
                        assert forall|k: int| #![trigger new_list@[k]] 0 <= k < new_list@.len()
                            implies new_list@[k].wf() && new_list@[k].alive() && exists|j: int|
                            0 <= j < orig.len() && new_list@[k].view().id
                                == (#[trigger] orig[j]).view().id && orig[j].alive() by {
                            if k < pre_new_list.len() {
                                assert(new_list@[k] == pre_new_list[k]);
                            } else {
                                assert(new_list@[k].view().id == orig[processed].view().id);
                                assert(orig[processed].alive());
                            }
                        }
                        if ids_strictly_increasing(orig) {
                            assert forall|k: int, j: int|
                                0 <= k < new_list@.len() && processed + 1 <= j < orig.len()
                                implies (#[trigger] new_list@[k]).view().id
                                    < (#[trigger] orig[j]).view().id by {
                                if k < pre_new_list.len() {
                                    assert(new_list@[k] == pre_new_list[k]);
                                } else {
                                    assert(new_list@[k].view().id == orig[processed].view().id);
                                    assert(orig[processed].view().id < orig[j].view().id);
                                }
                            }
                            assert forall|k1: int, k2: int| 0 <= k1 < k2 < new_list@.len()
                                implies (#[trigger] new_list@[k1]).view().id
                                    < (#[trigger] new_list@[k2]).view().id by {
                                if k2 < pre_new_list.len() {
                                    assert(new_list@[k1] == pre_new_list[k1]);
                                    assert(new_list@[k2] == pre_new_list[k2]);
                                } else {
                                    assert(new_list@[k1] == pre_new_list[k1]);
                                    assert(pre_new_list[k1].view().id < orig[processed].view().id);
                                }
                            }
                        }
                    }
                } else {
                    proof {
                        lemma_pass_record_drop(
                            px as int,
                            py as int,
                            orig.take(processed),
                            messages@,
                            new_list@,
                            out_entry.skip(out0.len() as int),
                            pre_outcome,
                            pre_cuts,
                            pre_slot,
                            pre_origin,
                            entering,
                            actor,
                            output_messages@.skip(out_entry.len() as int),
                        );
                        outcome = pre_outcome.push(Some(actor));
                        cuts = pre_cuts.push(output_messages@.skip(out0.len() as int).len() as int);
                        slot = pre_slot.push(-1);
                        assert(output_messages@.skip(out0.len() as int) =~= out_entry.skip(
                            out0.len() as int,
                        ) + output_messages@.skip(out_entry.len() as int));
                    }
                }
            }
            proof {
                processed = processed + 1;
                assert(orig.take(processed - 1).push(entering) =~= orig.take(processed));
                assert forall|j: int|
                    0 <= j < processed && (#[trigger] orig[j]).alive()
                        && (orig[j].view().id == PLAYER_ID
                            || orig[j].view().collision_type == CollisionType::Collect)
                        && crate::actor::steps_keep_alive::<T>(messages@, orig[j].view().id)
                    implies has_id(new_list@, orig[j].view().id as int) by {
                    if j == processed - 1 {
                        assert(new_list@[new_list@.len() - 1].view().id
                            == orig[j].view().id);
                    } else {
                        let k = choose|k: int|
                            0 <= k < pre_new_list.len()
                                && (#[trigger] pre_new_list[k]).view().id
                                    == orig[j].view().id as int;
                        assert(new_list@[k].view().id == orig[j].view().id);
                    }
                }
            }
        }
        proof {
            assert(orig.skip(orig.len() as int).len() == 0);
            assert(processed == orig.len());
        }
        *list = new_list;
        proof {
            assert(orig.take(processed) =~= orig);
            assert(pass_record(
                px as int,
                py as int,
                orig,
                messages@,
                list@,
                output_messages@.skip(out0.len() as int),
                outcome,
                cuts,
                slot,
                origin,
            ));
            assert(update_pass(
                px as int,
                py as int,
                orig,
                messages@,
                list@,
                output_messages@.skip(out0.len() as int),
            ));
        }
    }

    /// One full simulation tick: fix the reference point from the player's
    /// position, let the agent write instructions for every non-player ship,
    /// then run the update pass over every collection and prune the dead.
    #[verifier::rlimit(100)]
    pub fn update(
        &mut self,
        messages: Vec<(i32, PlayerInstructions)>,
        output_messages: &mut Vec<(GameInstructions, ActorView)>,
    )
        requires
            old(self).wf(),
        ensures
            final(self).wf(),
            final(self).count == old(self).count,
            pruned(old(self).spaceships@, final(self).spaceships@),
            pruned(old(self).bullets@, final(self).bullets@),
            pruned(old(self).asteroids@, final(self).asteroids@),
            pruned(old(self).kamikaze@, final(self).kamikaze@),
            pruned(old(self).explosions@, final(self).explosions@),
            pruned(old(self).tokens@, final(self).tokens@),
            forall|j: int|
                0 <= j < old(self).tokens@.len() && (#[trigger] old(self).tokens@[j]).alive()
                    ==> has_id(final(self).tokens@, old(self).tokens@[j].view().id as int),
            appends(old(output_messages)@, final(output_messages)@),
            has_id(old(self).spaceships@, PLAYER_ID as int) ==> exists|j: int|
                0 <= j < old(self).spaceships@.len()
                    && (#[trigger] old(self).spaceships@[j]).view().id == PLAYER_ID
                    && final(self).px == old(self).spaceships@[j].view().x
                    && final(self).py == old(self).spaceships@[j].view().y,
            !has_id(old(self).spaceships@, PLAYER_ID as int)
                ==> final(self).px == old(self).px && final(self).py == old(self).py,
            (!messages@.contains((PLAYER_ID, PlayerInstructions::Collide)) && exists|j: int|
                0 <= j < old(self).spaceships@.len()
                    && (#[trigger] old(self).spaceships@[j]).view().id == PLAYER_ID
                    && old(self).spaceships@[j].alive())
                ==> has_id(final(self).spaceships@, PLAYER_ID as int),
            ticked(
                *old(self),
                messages@,
                *final(self),
                final(output_messages)@.skip(old(output_messages)@.len() as int),
            ),
    {
        let ghost msgs0 = messages@;
        let mut player_messages = messages;
        let ghost pre = *self;
        proof {
            assert(msgs0.is_prefix_of(player_messages@));
        }

        let mut i: usize = 0;
        let mut found_player = false;
        let mut player_at: usize = 0;
        while i < self.spaceships.len()
            invariant
                0 <= i <= self.spaceships@.len(),
                *self == pre,
                pre.wf(),
                found_player ==> 0 <= player_at < self.spaceships@.len()
                    && self.spaceships@[player_at as int].view().id == PLAYER_ID,
                !found_player ==> forall|j: int|
                    0 <= j < i ==> (#[trigger] self.spaceships@[j]).view().id != PLAYER_ID,
            decreases self.spaceships@.len() - i,
        {
            if !found_player && self.spaceships[i].get_id() == PLAYER_ID {
                found_player = true;
                player_at = i;
            }
            i = i + 1;
        }
        if found_player {
            let v = self.spaceships[player_at].get_view();
            self.px = v.x;
            self.py = v.y;
            proof {
                assert((#[trigger] pre.spaceships@[player_at as int]).view().id == PLAYER_ID
                    && self.px == pre.spaceships@[player_at as int].view().x
                    && self.py == pre.spaceships@[player_at as int].view().y);
            }
        } else {
            proof {
                assert(!has_id(pre.spaceships@, PLAYER_ID as int));
            }
        }
        let ghost mid = *self;

        let ship_views = Self::get_views(&self.spaceships);
        let mut s: usize = 0;
        while s < ship_views.len()
            invariant
                0 <= s <= ship_views@.len(),
                *self == mid,
                mid.wf(),
                forall|k: int| 0 <= k < ship_views@.len() ==> (#[trigger] ship_views@[k])@.wf(),
                msgs0.is_prefix_of(player_messages@),
                forall|k: int|
                    msgs0.len() <= k < player_messages@.len()
                        ==> (#[trigger] player_messages@[k]).0 != PLAYER_ID,
            decreases ship_views@.len() - s,
        {
            let ship = &ship_views[s];
            if ship.id != PLAYER_ID {
                let nearest = self.get_nearest(ship);
                let ghost pm_pre = player_messages@;
                let ghost actor_model = ship@;
                set_instructions(ship.clone_view(), nearest, &mut player_messages);
                proof {
                    let added = player_messages@.skip(pm_pre.len() as int);
                    assert forall|i: int| 0 <= i < added.len() implies (#[trigger] added[i]).0
                        == actor_model.id by {
                        if crate::spaceship_agent::has_player(model_seq(nearest@)) {
                            let kk = choose|kk: int|
                                0 <= kk < model_seq(nearest@).len()
                                    && (#[trigger] model_seq(nearest@)[kk]).id == PLAYER_ID
                                    && (forall|l: int|
                                        0 <= l < kk ==> (#[trigger] model_seq(nearest@)[l]).id
                                            != PLAYER_ID)
                                    && added == crate::spaceship_agent::attack_msgs(
                                        actor_model, model_seq(nearest@)[kk],
                                    );
                            crate::spaceship_agent::lemma_attack_msgs_target(
                                actor_model, model_seq(nearest@)[kk],
                            );
                        } else {
                            crate::spaceship_agent::lemma_bucket_targets(actor_model.id, added);
                        }
                    }
                    assert forall|k: int|
                        msgs0.len() <= k < player_messages@.len()
                        implies (#[trigger] player_messages@[k]).0 != PLAYER_ID by {
                        if k < pm_pre.len() {
                            assert(player_messages@[k] == pm_pre[k]);
                        } else {
                            assert(player_messages@[k] == added[k - pm_pre.len()]);
                            assert(player_messages@[k].0 == actor_model.id);
                        }
                    }
                    assert(player_messages@.subrange(0, msgs0.len() as int) =~= msgs0);
                }
            }
            s = s + 1;
        }

        let ghost out0 = output_messages@;
        proof {
            if !msgs0.contains((PLAYER_ID, PlayerInstructions::Collide)) {
                assert forall|p: Spaceship, post: Spaceship, em: Seq<(GameInstructions, ActorView)>|
                    p.alive() && #[trigger] Spaceship::updated(p, post, em)
                    implies post.alive() by {}
                assert forall|p: Spaceship, msg: PlayerInstructions, post: Spaceship,
                    em: Seq<(GameInstructions, ActorView)>|
                    p.alive() && player_messages@.contains((PLAYER_ID, msg))
                        && #[trigger] Spaceship::executed(p, msg, post, em)
                    implies post.alive() by {
                    if msg == PlayerInstructions::Collide {
                        let i = choose|i: int|
                            0 <= i < player_messages@.len() && player_messages@[i]
                                == (PLAYER_ID, msg);
                        if i < msgs0.len() {
                            assert(player_messages@.subrange(0, msgs0.len() as int)[i]
                                == msgs0[i]);
                            assert(msgs0.contains(player_messages@[i]));
                        } else {
                            assert(player_messages@[i].0 != PLAYER_ID);
                        }
                        assert(false);
                    }
                }
                assert(crate::actor::steps_keep_alive::<Spaceship>(
                    player_messages@, PLAYER_ID,
                ));
            }
        }
        Self::update_actor_list(self.px, self.py, &mut self.spaceships, &player_messages, output_messages);
        proof {
            if !msgs0.contains((PLAYER_ID, PlayerInstructions::Collide))
                && exists|j: int|
                    0 <= j < pre.spaceships@.len()
                        && (#[trigger] pre.spaceships@[j]).view().id == PLAYER_ID
                        && pre.spaceships@[j].alive() {
                let j = choose|j: int|
                    0 <= j < pre.spaceships@.len()
                        && (#[trigger] pre.spaceships@[j]).view().id == PLAYER_ID
                        && pre.spaceships@[j].alive();
                assert(has_id(self.spaceships@, PLAYER_ID as int));
            }
        }
        let ghost o1 = output_messages@;
        Self::update_actor_list(self.px, self.py, &mut self.bullets, &player_messages, output_messages);
        proof {
            lemma_appends_trans(out0, o1, output_messages@);
        }
        let ghost o2 = output_messages@;
        Self::update_actor_list(self.px, self.py, &mut self.asteroids, &player_messages, output_messages);
        proof {
            lemma_appends_trans(out0, o2, output_messages@);
        }
        let ghost o3 = output_messages@;
        Self::update_actor_list(self.px, self.py, &mut self.kamikaze, &player_messages, output_messages);
        proof {
            lemma_appends_trans(out0, o3, output_messages@);
        }
        let ghost o4 = output_messages@;
        Self::update_actor_list(self.px, self.py, &mut self.explosions, &player_messages, output_messages);
        proof {
            lemma_appends_trans(out0, o4, output_messages@);
        }
        let ghost o5 = output_messages@;
        proof {
            assert forall|p: Token, post: Token, em: Seq<(GameInstructions, ActorView)>|
                p.alive() && #[trigger] Token::updated(p, post, em) implies post.alive() by {}
            assert forall|p: Token, msg: PlayerInstructions, post: Token,
                em: Seq<(GameInstructions, ActorView)>|
                p.alive() && #[trigger] Token::executed(p, msg, post, em) implies post.alive() by {}
            assert(crate::actor::immortal_steps::<Token>());
            assert forall|id: i32| true implies crate::actor::steps_keep_alive::<Token>(
                player_messages@, id,
            ) by {
                crate::actor::lemma_immortal_keeps_alive::<Token>(player_messages@, id);
            }
        }
        Self::update_actor_list(self.px, self.py, &mut self.tokens, &player_messages, output_messages);
        proof {
            lemma_appends_trans(out0, o5, output_messages@);
            crate::actor::lemma_pruned_ids_between(mid.spaceships@, self.spaceships@, 1, mid.count as int);
            crate::actor::lemma_pruned_ids_between(mid.bullets@, self.bullets@, 2, mid.count as int);
            crate::actor::lemma_pruned_ids_between(mid.asteroids@, self.asteroids@, 2, mid.count as int);
            crate::actor::lemma_pruned_ids_between(mid.kamikaze@, self.kamikaze@, 2, mid.count as int);
            crate::actor::lemma_pruned_ids_between(mid.explosions@, self.explosions@, 0, 0);
            crate::actor::lemma_pruned_ids_between(mid.tokens@, self.tokens@, 2, mid.count as int);
            crate::actor::lemma_pruned_ids_disjoint(mid.spaceships@, self.spaceships@, mid.bullets@, self.bullets@);
            crate::actor::lemma_pruned_ids_disjoint(mid.spaceships@, self.spaceships@, mid.asteroids@, self.asteroids@);
            crate::actor::lemma_pruned_ids_disjoint(mid.spaceships@, self.spaceships@, mid.kamikaze@, self.kamikaze@);
            crate::actor::lemma_pruned_ids_disjoint(mid.spaceships@, self.spaceships@, mid.tokens@, self.tokens@);
            crate::actor::lemma_pruned_ids_disjoint(mid.bullets@, self.bullets@, mid.asteroids@, self.asteroids@);
            crate::actor::lemma_pruned_ids_disjoint(mid.bullets@, self.bullets@, mid.kamikaze@, self.kamikaze@);
            crate::actor::lemma_pruned_ids_disjoint(mid.bullets@, self.bullets@, mid.tokens@, self.tokens@);
            crate::actor::lemma_pruned_ids_disjoint(mid.asteroids@, self.asteroids@, mid.kamikaze@, self.kamikaze@);
            crate::actor::lemma_pruned_ids_disjoint(mid.asteroids@, self.asteroids@, mid.tokens@, self.tokens@);
            crate::actor::lemma_pruned_ids_disjoint(mid.kamikaze@, self.kamikaze@, mid.tokens@, self.tokens@);

            lemma_appends_trans(o4, o5, output_messages@);
            lemma_appends_trans(o3, o4, output_messages@);
            lemma_appends_trans(o2, o3, output_messages@);
            lemma_appends_trans(o1, o2, output_messages@);
            crate::actor::lemma_appends_refl(out0);
            crate::actor::lemma_appends_refl(output_messages@);
            crate::actor::lemma_event_segment(out0, out0, o1, output_messages@);
            crate::actor::lemma_event_segment(out0, o1, o2, output_messages@);
            crate::actor::lemma_event_segment(out0, o2, o3, output_messages@);
            crate::actor::lemma_event_segment(out0, o3, o4, output_messages@);
            crate::actor::lemma_event_segment(out0, o4, o5, output_messages@);
            crate::actor::lemma_event_segment(out0, o5, output_messages@, output_messages@);
            let em = output_messages@.skip(out0.len() as int);
            let c1 = o1.len() - out0.len();
            let c2 = o2.len() - out0.len();
            let c3 = o3.len() - out0.len();
            let c4 = o4.len() - out0.len();
            let c5 = o5.len() - out0.len();
            assert(tick_record(pre, msgs0, *self, em, player_messages@, c1, c2, c3, c4, c5));
            assert(ticked(pre, msgs0, *self, em));
        }
    }

    /// Consumes the tick's events and performs the spawns they ask for: a
    /// bullet per fire event, an explosion per explode event, two fragments
    /// per split event, and a fresh (replacing) token per collect event of
    /// the player.
    #[verifier::rlimit(100)]
    pub fn process_messages(&mut self, output_messages: &Vec<(GameInstructions, ActorView)>)
        requires
            old(self).wf(),
            old(self).count + 2 * output_messages@.len() <= i32::MAX,
            forall|k: int|
                0 <= k < output_messages@.len() ==> (#[trigger] output_messages@[k]).1@.wf(),
        ensures
            final(self).wf(),
            final(self).spaceships == old(self).spaceships,
            final(self).bullets@.len() == old(self).bullets@.len()
                + fire_count(output_messages@),
            old(self).bullets@.is_prefix_of(final(self).bullets@),
            final(self).asteroids@.len() == old(self).asteroids@.len()
                + 2 * split_count(output_messages@),
            old(self).asteroids@.is_prefix_of(final(self).asteroids@),
            final(self).explosions@.len() == old(self).explosions@.len()
                + explode_count(output_messages@),
            old(self).explosions@.is_prefix_of(final(self).explosions@),
            collects(output_messages@) > 0 ==> final(self).tokens@.len() == 1
                && old(self).count < final(self).tokens@[0].view().id <= final(self).count
                && -10_000_000 <= final(self).tokens@[0].view().x < 10_000_000
                && -10_000_000 <= final(self).tokens@[0].view().y < 10_000_000
                && final(self).tokens@[0].alive()
                && final(self).tokens@[0].view().collision_type == CollisionType::Collect,
            collects(output_messages@) == 0 ==> final(self).tokens == old(self).tokens,
            forall|i: int|
                0 <= i < output_messages@.len()
                    ==> event_effect(*old(self), output_messages@, i, *final(self)),
            final(self).kamikaze == old(self).kamikaze,
            final(self).count == old(self).count + fire_count(output_messages@)
                + 2 * split_count(output_messages@) + collects(output_messages@),
            final(self).px == old(self).px,
            final(self).py == old(self).py,
    {
        let ghost pre = *self;
        let ghost events = output_messages@;
        let mut i: usize = 0;
        while i < output_messages.len()
            invariant
                0 <= i <= events.len(),
                events == output_messages@,
                self.wf(),
                pre.wf(),
                forall|k: int| 0 <= k < events.len() ==> (#[trigger] events[k]).1@.wf(),
                pre.count + 2 * events.len() <= i32::MAX,
                0 <= fire_count(events.take(i as int)),
                0 <= split_count(events.take(i as int)),
                0 <= explode_count(events.take(i as int)),
                0 <= collects(events.take(i as int)),
                fire_count(events.take(i as int)) + 2 * split_count(events.take(i as int))
                    + collects(events.take(i as int)) <= 2 * i,
                self.spaceships == pre.spaceships,
                self.kamikaze == pre.kamikaze,
                self.bullets@.len() == pre.bullets@.len() + fire_count(events.take(i as int)),
                pre.bullets@.is_prefix_of(self.bullets@),
                self.asteroids@.len() == pre.asteroids@.len()
                    + 2 * split_count(events.take(i as int)),
                pre.asteroids@.is_prefix_of(self.asteroids@),
                self.explosions@.len() == pre.explosions@.len()
                    + explode_count(events.take(i as int)),
                pre.explosions@.is_prefix_of(self.explosions@),
                collects(events.take(i as int)) > 0 ==> self.tokens@.len() == 1
                    && pre.count < self.tokens@[0].view().id <= self.count
                    && -10_000_000 <= self.tokens@[0].view().x < 10_000_000
                    && -10_000_000 <= self.tokens@[0].view().y < 10_000_000
                    && self.tokens@[0].alive()
                    && self.tokens@[0].view().collision_type == CollisionType::Collect,
                collects(events.take(i as int)) == 0 ==> self.tokens == pre.tokens,
                forall|j: int| 0 <= j < i ==> event_effect(pre, events, j, *self),
                self.count == pre.count + fire_count(events.take(i as int))
                    + 2 * split_count(events.take(i as int)) + collects(events.take(i as int)),
                self.px == pre.px,
                self.py == pre.py,
            decreases events.len() - i,
        {
            proof {
                assert(events.take(i + 1).drop_last() =~= events.take(i as int));
                assert(events.take(i + 1).last() == events[i as int]);
            }
            let ghost pre_step = *self;
            let (msg, v) = &output_messages[i];
            proof {
                assert(events[i as int].1 == *v);
            }
            match msg {
                GameInstructions::Fire => {
                    self.add_bullet(v.id, v.x, v.y, v.rotation);
                },
                GameInstructions::Explode => {
                    self.add_explosion(v.x, v.y, v.width, v.rotation);
                },
                GameInstructions::NewAsteroid => {
                    self.split_asteroid(v);
                },
                GameInstructions::Collect => {
                    if v.id == PLAYER_ID {
                        self.new_token();
                    }
                },
                GameInstructions::Trail => {},
            }
            proof {
                if pre_step.bullets@.is_prefix_of(self.bullets@) {
                    assert(pre.bullets@.is_prefix_of(self.bullets@));
                }
                if pre_step.asteroids@.is_prefix_of(self.asteroids@) {
                    assert(pre.asteroids@.is_prefix_of(self.asteroids@));
                }
                if pre_step.explosions@.is_prefix_of(self.explosions@) {
                    assert(pre.explosions@.is_prefix_of(self.explosions@));
                }
                assert forall|j: int| 0 <= j < i + 1 implies event_effect(pre, events, j, *self) by {
                    if j < i {
                        assert(event_effect(pre, events, j, pre_step));
                        if events[j].0 == GameInstructions::Fire {
                            let at = pre.bullets@.len() + fire_count(events.take(j));
                            assert(self.bullets@.subrange(0, pre_step.bullets@.len() as int)[at]
                                == pre_step.bullets@[at]);
                        } else if events[j].0 == GameInstructions::NewAsteroid {
                            let at = pre.asteroids@.len() + 2 * split_count(events.take(j));
                            assert(self.asteroids@.subrange(
                                0,
                                pre_step.asteroids@.len() as int,
                            )[at] == pre_step.asteroids@[at]);
                            assert(self.asteroids@.subrange(
                                0,
                                pre_step.asteroids@.len() as int,
                            )[at + 1] == pre_step.asteroids@[at + 1]);
                        } else if events[j].0 == GameInstructions::Explode {
                            let at = pre.explosions@.len() + explode_count(events.take(j));
                            assert(self.explosions@.subrange(
                                0,
                                pre_step.explosions@.len() as int,
                            )[at] == pre_step.explosions@[at]);
                        }
                    } else {
                        if events[j].0 == GameInstructions::Fire {
                            assert(self.bullets@.last() == self.bullets@[
                                pre.bullets@.len() + fire_count(events.take(j))
                            ]);
                        }
                    }
                }
            }
            i = i + 1;
        }
        proof {
            assert(events.take(events.len() as int) =~= events);
        }
    }

    /// Clears the world and starts a new round: the player's ship alone,
    /// plus one fresh token.  The id counter is never reset.
    pub fn restart(&mut self)
        requires
            old(self).wf(),
            old(self).count < i32::MAX,
        ensures
            final(self).wf(),
            final(self).spaceships@ =~= seq![player_ship()],
            final(self).bullets@.len() == 0,
            final(self).asteroids@.len() == 0,
            final(self).kamikaze@.len() == 0,
            final(self).explosions@.len() == 0,
            final(self).tokens@.len() == 1,
            final(self).tokens@[0].view().id == old(self).count + 1,
            final(self).tokens@[0].view().collision_type == CollisionType::Collect,
            final(self).tokens@[0].alive(),
            final(self).count == old(self).count + 1,
    {
        self.spaceships = Vec::new();
        self.bullets = Vec::new();
        self.asteroids = Vec::new();
        self.kamikaze = Vec::new();
        self.explosions = Vec::new();
        self.new_player();
        self.new_token();
    }
}

/// Whether the update pass kills `a` for distance: not the player, not a
/// collectible, and too far from the reference point.
pub open spec fn marked_for_cull<T: Actor>(px: int, py: int, a: T) -> bool {
    &&& a.view().id != PLAYER_ID
    &&& a.view().collision_type != CollisionType::Collect
    &&& crate::fixed::dist_sq(px, py, a.view().x as int, a.view().y as int)
        > CULL_DISTANCE_SQUARED as int
}

/// A full record of one update pass over a collection.  `outcome[k]` is
/// what became of `pre[k]`: nothing if it was distance-culled, else the
/// state it stepped to; `cuts` splits `emitted` into the actors'
/// consecutive event chunks; `slot` and `origin` are mutually inverse maps
/// between surviving entrants and their places in `post`, in order.
pub open spec fn pass_record<T: Actor>(
    px: int,
    py: int,
    pre: Seq<T>,
    msgs: Seq<(i32, PlayerInstructions)>,
    post: Seq<T>,
    emitted: Seq<(GameInstructions, ActorView)>,
    outcome: Seq<Option<T>>,
    cuts: Seq<int>,
    slot: Seq<int>,
    origin: Seq<int>,
) -> bool {
    &&& outcome.len() == pre.len()
    &&& cuts.len() == pre.len() + 1
    &&& slot.len() == pre.len()
    &&& origin.len() == post.len()
    &&& cuts[0] == 0
    &&& cuts[pre.len() as int] == emitted.len()
    &&& forall|k: int| 0 <= k < pre.len() ==> #[trigger] cuts[k] <= cuts[k + 1]
    &&& forall|k: int| 0 <= k <= pre.len() ==> 0 <= #[trigger] cuts[k] <= emitted.len()
    &&& forall|k: int|
        0 <= k < pre.len() && (#[trigger] outcome[k]) is None
            ==> marked_for_cull(px, py, pre[k]) && cuts[k + 1] == cuts[k]
    &&& forall|k: int|
        0 <= k < pre.len() && (#[trigger] outcome[k]) is Some
            ==> !marked_for_cull(px, py, pre[k]) && crate::actor::stepped(
                pre[k],
                msgs,
                outcome[k]->Some_0,
                emitted.subrange(cuts[k], cuts[k + 1]),
            )
    &&& forall|k: int|
        0 <= k < pre.len()
            ==> ((outcome[k] is Some && outcome[k]->Some_0.alive()) <==> #[trigger] slot[k] >= 0)
    &&& forall|k: int|
        0 <= k < pre.len() && #[trigger] slot[k] >= 0
            ==> slot[k] < post.len() && outcome[k] == Some(post[slot[k]]) && origin[slot[k]] == k
    &&& forall|j: int|
        0 <= j < post.len() ==> 0 <= #[trigger] origin[j] < pre.len() && slot[origin[j]] == j
    &&& forall|j1: int, j2: int|
        0 <= j1 < j2 < post.len() ==> #[trigger] origin[j1] < #[trigger] origin[j2]
}

/// Relates a collection before and after one update pass: each entrant is
/// either distance-culled on the spot or steps through its routed
/// instructions and one update, the events land in `emitted` in entrant
/// order, and the survivors are exactly the stepped entrants that ended
/// the tick alive, in order.
pub open spec fn update_pass<T: Actor>(
    px: int,
    py: int,
    pre: Seq<T>,
    msgs: Seq<(i32, PlayerInstructions)>,
    post: Seq<T>,
    emitted: Seq<(GameInstructions, ActorView)>,
) -> bool {
    exists|outcome: Seq<Option<T>>, cuts: Seq<int>, slot: Seq<int>, origin: Seq<int>|
        #![trigger pass_record(px, py, pre, msgs, post, emitted, outcome, cuts, slot, origin)]
        pass_record(px, py, pre, msgs, post, emitted, outcome, cuts, slot, origin)
}

/// Extends a pass record by one distance-culled entrant.
proof fn lemma_pass_record_cull<T: Actor>(
    px: int,
    py: int,
    pre: Seq<T>,
    msgs: Seq<(i32, PlayerInstructions)>,
    post: Seq<T>,
    emitted: Seq<(GameInstructions, ActorView)>,
    outcome: Seq<Option<T>>,
    cuts: Seq<int>,
    slot: Seq<int>,
    origin: Seq<int>,
    a: T,
)
    requires
        pass_record(px, py, pre, msgs, post, emitted, outcome, cuts, slot, origin),
        marked_for_cull(px, py, a),
    ensures
        pass_record(
            px,
            py,
            pre.push(a),
            msgs,
            post,
            emitted,
            outcome.push(None),
            cuts.push(emitted.len() as int),
            slot.push(-1),
            origin,
        ),
{
    let pre2 = pre.push(a);
    let outcome2 = outcome.push(None);
    let cuts2 = cuts.push(emitted.len() as int);
    let slot2 = slot.push(-1);
    assert(pre2[pre.len() as int] == a);
    assert(outcome2[pre.len() as int] is None);
    assert forall|k: int| 0 <= k < pre2.len() && (#[trigger] outcome2[k]) is Some
        implies !marked_for_cull(px, py, pre2[k]) && crate::actor::stepped(
            pre2[k],
            msgs,
            outcome2[k]->Some_0,
            emitted.subrange(cuts2[k], cuts2[k + 1]),
        ) by {
        assert(outcome2[k] == outcome[k]);
        assert(pre2[k] == pre[k]);
        assert(cuts2[k] == cuts[k] && cuts2[k + 1] == cuts[k + 1]);
    }
}

/// Extends a pass record by one stepped entrant that ends the tick alive.
proof fn lemma_pass_record_keep<T: Actor>(
    px: int,
    py: int,
    pre: Seq<T>,
    msgs: Seq<(i32, PlayerInstructions)>,
    post: Seq<T>,
    emitted: Seq<(GameInstructions, ActorView)>,
    outcome: Seq<Option<T>>,
    cuts: Seq<int>,
    slot: Seq<int>,
    origin: Seq<int>,
    a: T,
    stepped_a: T,
    em_a: Seq<(GameInstructions, ActorView)>,
)
    requires
        pass_record(px, py, pre, msgs, post, emitted, outcome, cuts, slot, origin),
        !marked_for_cull(px, py, a),
        crate::actor::stepped(a, msgs, stepped_a, em_a),
        stepped_a.alive(),
    ensures
        pass_record(
            px,
            py,
            pre.push(a),
            msgs,
            post.push(stepped_a),
            emitted + em_a,
            outcome.push(Some(stepped_a)),
            cuts.push((emitted + em_a).len() as int),
            slot.push(post.len() as int),
            origin.push(pre.len() as int),
        ),
{
    let pre2 = pre.push(a);
    let post2 = post.push(stepped_a);
    let em2 = emitted + em_a;
    let outcome2 = outcome.push(Some(stepped_a));
    let cuts2 = cuts.push(em2.len() as int);
    let slot2 = slot.push(post.len() as int);
    let origin2 = origin.push(pre.len() as int);
    assert(pre2[pre.len() as int] == a);
    assert(outcome2[pre.len() as int] == Some(stepped_a));
    assert(em2.subrange(cuts2[pre.len() as int], cuts2[pre.len() as int + 1]) =~= em_a);
    assert forall|k: int| 0 <= k < pre2.len() && (#[trigger] outcome2[k]) is Some
        implies !marked_for_cull(px, py, pre2[k]) && crate::actor::stepped(
            pre2[k],
            msgs,
            outcome2[k]->Some_0,
            em2.subrange(cuts2[k], cuts2[k + 1]),
        ) by {
        if k < pre.len() {
            assert(outcome2[k] == outcome[k]);
            assert(pre2[k] == pre[k]);
            assert(cuts2[k] == cuts[k] && cuts2[k + 1] == cuts[k + 1]);
            assert(em2.subrange(cuts2[k], cuts2[k + 1]) =~= emitted.subrange(
                cuts[k],
                cuts[k + 1],
            ));
        }
    }
    assert forall|k: int| 0 <= k < pre2.len() && (#[trigger] outcome2[k]) is None
        implies marked_for_cull(px, py, pre2[k]) && cuts2[k + 1] == cuts2[k] by {
        assert(outcome2[k] == outcome[k]);
        assert(pre2[k] == pre[k]);
        assert(cuts2[k] == cuts[k] && cuts2[k + 1] == cuts[k + 1]);
    }
    assert forall|k: int| 0 <= k < pre2.len() && #[trigger] slot2[k] >= 0
        implies slot2[k] < post2.len() && outcome2[k] == Some(post2[slot2[k]])
            && origin2[slot2[k]] == k by {
        if k < pre.len() {
            assert(slot2[k] == slot[k]);
            assert(outcome2[k] == outcome[k]);
            assert(post2[slot[k]] == post[slot[k]]);
            assert(origin2[slot[k]] == origin[slot[k]]);
        } else {
            assert(post2[post.len() as int] == stepped_a);
        }
    }
    assert forall|j: int| 0 <= j < post2.len() implies 0 <= #[trigger] origin2[j] < pre2.len()
        && slot2[origin2[j]] == j by {
        if j < post.len() {
            assert(origin2[j] == origin[j]);
            assert(slot2[origin[j]] == slot[origin[j]]);
        }
    }
    assert forall|j1: int, j2: int| 0 <= j1 < j2 < post2.len() implies #[trigger] origin2[j1]
        < #[trigger] origin2[j2] by {
        if j2 < post.len() {
            assert(origin2[j1] == origin[j1] && origin2[j2] == origin[j2]);
        } else {
            assert(origin2[j1] == origin[j1]);
            assert(0 <= origin[j1] < pre.len());
        }
    }
}

/// Extends a pass record by one stepped entrant that ends the tick dead.
proof fn lemma_pass_record_drop<T: Actor>(
    px: int,
    py: int,
    pre: Seq<T>,
    msgs: Seq<(i32, PlayerInstructions)>,
    post: Seq<T>,
    emitted: Seq<(GameInstructions, ActorView)>,
    outcome: Seq<Option<T>>,
    cuts: Seq<int>,
    slot: Seq<int>,
    origin: Seq<int>,
    a: T,
    stepped_a: T,
    em_a: Seq<(GameInstructions, ActorView)>,
)
    requires
        pass_record(px, py, pre, msgs, post, emitted, outcome, cuts, slot, origin),
        !marked_for_cull(px, py, a),
        crate::actor::stepped(a, msgs, stepped_a, em_a),
        !stepped_a.alive(),
    ensures
        pass_record(
            px,
            py,
            pre.push(a),
            msgs,
            post,
            emitted + em_a,
            outcome.push(Some(stepped_a)),
            cuts.push((emitted + em_a).len() as int),
            slot.push(-1),
            origin,
        ),
{
    let pre2 = pre.push(a);
    let em2 = emitted + em_a;
    let outcome2 = outcome.push(Some(stepped_a));
    let cuts2 = cuts.push(em2.len() as int);
    let slot2 = slot.push(-1);
    assert(pre2[pre.len() as int] == a);
    assert(outcome2[pre.len() as int] == Some(stepped_a));
    assert(em2.subrange(cuts2[pre.len() as int], cuts2[pre.len() as int + 1]) =~= em_a);
    assert forall|k: int| 0 <= k < pre2.len() && (#[trigger] outcome2[k]) is Some
        implies !marked_for_cull(px, py, pre2[k]) && crate::actor::stepped(
            pre2[k],
            msgs,
            outcome2[k]->Some_0,
            em2.subrange(cuts2[k], cuts2[k + 1]),
        ) by {
        if k < pre.len() {
            assert(outcome2[k] == outcome[k]);
            assert(pre2[k] == pre[k]);
            assert(cuts2[k] == cuts[k] && cuts2[k + 1] == cuts[k + 1]);
            assert(em2.subrange(cuts2[k], cuts2[k + 1]) =~= emitted.subrange(
                cuts[k],
                cuts[k + 1],
            ));
        }
    }
    assert forall|k: int| 0 <= k < pre2.len() && (#[trigger] outcome2[k]) is None
        implies marked_for_cull(px, py, pre2[k]) && cuts2[k + 1] == cuts2[k] by {
        assert(outcome2[k] == outcome[k]);
        assert(pre2[k] == pre[k]);
        assert(cuts2[k] == cuts[k] && cuts2[k + 1] == cuts[k + 1]);
    }
    assert forall|k: int| 0 <= k < pre2.len() && #[trigger] slot2[k] >= 0
        implies slot2[k] < post.len() && outcome2[k] == Some(post[slot2[k]])
            && origin[slot2[k]] == k by {
        assert(slot2[k] == slot[k]);
        assert(outcome2[k] == outcome[k]);
    }
}

/// One whole manager tick, witnessed: `am` is the instruction list the
/// tick actually ran (the input extended by the agent's contributions,
/// which never target the player), and the cut points split the tick's
/// events among the six collections in update order.
pub open spec fn tick_record(
    pre: ActorManager,
    msgs: Seq<(i32, PlayerInstructions)>,
    post: ActorManager,
    emitted: Seq<(GameInstructions, ActorView)>,
    am: Seq<(i32, PlayerInstructions)>,
    c1: int,
    c2: int,
    c3: int,
    c4: int,
    c5: int,
) -> bool {
    &&& msgs.is_prefix_of(am)
    &&& forall|k: int| msgs.len() <= k < am.len() ==> (#[trigger] am[k]).0 != PLAYER_ID
    &&& 0 <= c1 <= c2 <= c3 <= c4 <= c5 <= emitted.len()
    &&& update_pass(
        post.px as int,
        post.py as int,
        pre.spaceships@,
        am,
        post.spaceships@,
        emitted.subrange(0, c1),
    )
    &&& update_pass(
        post.px as int,
        post.py as int,
        pre.bullets@,
        am,
        post.bullets@,
        emitted.subrange(c1, c2),
    )
    &&& update_pass(
        post.px as int,
        post.py as int,
        pre.asteroids@,
        am,
        post.asteroids@,
        emitted.subrange(c2, c3),
    )
    &&& update_pass(
        post.px as int,
        post.py as int,
        pre.kamikaze@,
        am,
        post.kamikaze@,
        emitted.subrange(c3, c4),
    )
    &&& update_pass(
        post.px as int,
        post.py as int,
        pre.explosions@,
        am,
        post.explosions@,
        emitted.subrange(c4, c5),
    )
    &&& update_pass(
        post.px as int,
        post.py as int,
        pre.tokens@,
        am,
        post.tokens@,
        emitted.subrange(c5, emitted.len() as int),
    )
}

/// One whole manager tick happened between `pre` and `post`, for some
/// agent-extended instruction list and some split of the events.
pub open spec fn ticked(
    pre: ActorManager,
    msgs: Seq<(i32, PlayerInstructions)>,
    post: ActorManager,
    emitted: Seq<(GameInstructions, ActorView)>,
) -> bool {
    exists|am: Seq<(i32, PlayerInstructions)>, c1: int, c2: int, c3: int, c4: int, c5: int|
        #![trigger tick_record(pre, msgs, post, emitted, am, c1, c2, c3, c4, c5)]
        tick_record(pre, msgs, post, emitted, am, c1, c2, c3, c4, c5)
}

/// Whether `b` lies strictly within the agent's sensor radius of `a`.
pub open spec fn in_sensor_range(a: ViewModel, b: ViewModel) -> bool {
    (b.x - a.x) * (b.x - a.x) + (b.y - a.y) * (b.y - a.y) < SENSOR_DISTANCE_SQUARED as int
}

/// The snapshots of `vs` other than `a`'s own that lie strictly within
/// the sensor radius of `a`, in order.
pub open spec fn nearby_views(vs: Seq<ViewModel>, a: ViewModel) -> Seq<ViewModel>
    decreases vs.len(),
{
    if vs.len() == 0 {
        Seq::empty()
    } else {
        nearby_views(vs.drop_last(), a) + if vs.last().id != a.id && in_sensor_range(
            a,
            vs.last(),
        ) {
            seq![vs.last()]
        } else {
            Seq::empty()
        }
    }
}

/// Keeps exactly the snapshots of `all` that lie within the sensor radius
/// of `actor` and are not `actor` itself, in order.
fn filter_nearby(all: &Vec<ActorView>, actor: &ActorView) -> (r: Vec<ActorView>)
    requires
        actor@.wf(),
        forall|k: int| 0 <= k < all@.len() ==> (#[trigger] all@[k])@.wf(),
    ensures
        model_seq(r@) == nearby_views(model_seq(all@), actor@),
        forall|k: int| 0 <= k < r@.len() ==> (#[trigger] r@[k])@.wf(),
{
    let ghost vs = model_seq(all@);
    let mut nearest: Vec<ActorView> = Vec::new();
    let mut i: usize = 0;
    while i < all.len()
        invariant
            0 <= i <= all@.len(),
            actor@.wf(),
            vs == model_seq(all@),
            vs.len() == all@.len(),
            forall|k: int| 0 <= k < all@.len() ==> (#[trigger] all@[k])@.wf(),
            forall|k: int| 0 <= k < vs.len() ==> #[trigger] vs[k] == all@[k]@,
            forall|k: int| 0 <= k < nearest@.len() ==> (#[trigger] nearest@[k])@.wf(),
            model_seq(nearest@) == nearby_views(vs.take(i as int), actor@),
        decreases all@.len() - i,
    {
        proof {
            assert(vs.take(i + 1).drop_last() =~= vs.take(i as int));
            assert(vs.take(i + 1).last() == vs[i as int]);
        }
        let ghost pre_nearest = nearest@;
        let ghost gi = i as int;
        let enemy = &all[i];
        if enemy.id != actor.id {
            let distance_squared = crate::fixed::dist_sq_milli(actor.x, actor.y, enemy.x, enemy.y);
            if distance_squared < SENSOR_DISTANCE_SQUARED {
                nearest.push(enemy.clone_view());
            }
        }
        proof {
            assert forall|k: int| 0 <= k < nearest@.len() implies (#[trigger] nearest@[k])@.wf()
                by {
                if k < pre_nearest.len() {
                    assert(nearest@[k] == pre_nearest[k]);
                } else {
                    assert(nearest@[k]@ == all@[gi]@);
                }
            }
            assert(model_seq(nearest@) =~= nearby_views(vs.take(i + 1), actor@));
        }
        i = i + 1;
    }
    proof {
        assert(vs.take(vs.len() as int) =~= vs);
    }
    nearest
}

} // verus!
