//! The stateless policy driving non-player ships.
//!
//! Given a ship's snapshot and the snapshots near it, it writes targeted
//! instructions into the same per-tick list the player's input uses.  When
//! the player is nearby, the ship turns toward it and fires once roughly
//! aligned; otherwise it picks a random behavior bucket.

use vstd::prelude::*;
use crate::actor::ActorView;
use crate::actor::model_seq;
use crate::actor::ViewModel;
use crate::actor::PLAYER_ID;
use crate::messages::PlayerInstructions;
use crate::rng::random_in_range;
use crate::trig::arctan2;
use crate::trig::atan2_milli;

verus! {

/// How far, in milli-degrees, the heading may be off before the agent turns
/// instead of firing.
pub const AIM_TOLERANCE: i64 = 20_000;

/// The signed angle from the ship's heading to the bearing of the enemy.
pub open spec fn attack_delta(actor: ViewModel, enemy: ViewModel) -> int {
    arctan2(enemy.x - actor.x, enemy.y - actor.y) - actor.rotation
}

/// What an attacking ship pushes: thrust and fire when roughly aligned,
/// otherwise the turn that closes the angle.
pub open spec fn attack_msgs(actor: ViewModel, enemy: ViewModel) -> Seq<(i32, PlayerInstructions)> {
    let d = attack_delta(actor, enemy);
    if -(AIM_TOLERANCE as int) < d < AIM_TOLERANCE as int {
        seq![
            (actor.id, PlayerInstructions::BeginIncreaseThrottle),
            (actor.id, PlayerInstructions::Fire),
            (actor.id, PlayerInstructions::StopRotateLeft),
            (actor.id, PlayerInstructions::StopRotateRight),
        ]
    } else if d < 0 {
        seq![
            (actor.id, PlayerInstructions::BeginRotateLeft),
            (actor.id, PlayerInstructions::StopRotateRight),
        ]
    } else {
        seq![
            (actor.id, PlayerInstructions::StopRotateLeft),
            (actor.id, PlayerInstructions::BeginRotateRight),
        ]
    }
}

/// The cruise bucket: keep straight, throttle up.
pub open spec fn cruise_msgs(id: i32) -> Seq<(i32, PlayerInstructions)> {
    seq![
        (id, PlayerInstructions::StopRotateRight),
        (id, PlayerInstructions::StopRotateLeft),
        (id, PlayerInstructions::BeginIncreaseThrottle),
    ]
}

/// The turn-left bucket.
pub open spec fn turn_left_msgs(id: i32) -> Seq<(i32, PlayerInstructions)> {
    seq![
        (id, PlayerInstructions::BeginRotateLeft),
        (id, PlayerInstructions::StopRotateRight),
        (id, PlayerInstructions::StopIncreaseThrottle),
    ]
}

/// The turn-right bucket.
pub open spec fn turn_right_msgs(id: i32) -> Seq<(i32, PlayerInstructions)> {
    seq![
        (id, PlayerInstructions::BeginRotateRight),
        (id, PlayerInstructions::StopRotateLeft),
        (id, PlayerInstructions::StopIncreaseThrottle),
    ]
}

/// The idle bucket: stop everything.
pub open spec fn idle_msgs(id: i32) -> Seq<(i32, PlayerInstructions)> {
    seq![
        (id, PlayerInstructions::StopRotateRight),
        (id, PlayerInstructions::StopRotateLeft),
        (id, PlayerInstructions::StopIncreaseThrottle),
    ]
}

/// Whether the added messages are one of the four random behavior buckets
/// for the ship `id`.
pub open spec fn random_bucket(id: i32, added: Seq<(i32, PlayerInstructions)>) -> bool {
    ||| added == cruise_msgs(id)
    ||| added == turn_left_msgs(id)
    ||| added == turn_right_msgs(id)
    ||| added == idle_msgs(id)
}

/// Whether some snapshot in `vs` is the player's.
pub open spec fn has_player(vs: Seq<ViewModel>) -> bool {
    exists|k: int| 0 <= k < vs.len() && (#[trigger] vs[k]).id == PLAYER_ID
}

/// Decides this ship's behavior for the tick and appends the instructions
/// it chose: an attack run on the player if the player is among the nearby
/// snapshots, otherwise a random behavior bucket.
pub fn set_instructions(
    actor: ActorView,
    nearbys: Vec<ActorView>,
    player_messages: &mut Vec<(i32, PlayerInstructions)>,
)
    requires
        actor@.wf(),
        forall|k: int| 0 <= k < nearbys@.len() ==> (#[trigger] nearbys@[k])@.wf(),
    ensures
        final(player_messages)@.len() >= old(player_messages)@.len(),
        final(player_messages)@.subrange(0, old(player_messages)@.len() as int)
            == old(player_messages)@,
        ({
            let vs = model_seq(nearbys@);
            let added = final(player_messages)@.skip(old(player_messages)@.len() as int);
            if has_player(vs) {
                exists|k: int|
                    0 <= k < vs.len() && (#[trigger] vs[k]).id == PLAYER_ID
                        && (forall|l: int| 0 <= l < k ==> (#[trigger] vs[l]).id != PLAYER_ID)
                        && added == attack_msgs(actor@, vs[k])
            } else {
                random_bucket(actor@.id, added)
            }
        }),
{
    let ghost vs = model_seq(nearbys@);
    let mut found: bool = false;
    let mut idx: usize = 0;
    let mut i: usize = 0;
    while i < nearbys.len()
        invariant
            0 <= i <= nearbys@.len(),
            vs == model_seq(nearbys@),
            vs.len() == nearbys@.len(),
            forall|k: int| 0 <= k < vs.len() ==> #[trigger] vs[k] == nearbys@[k]@,
            !found ==> forall|l: int| 0 <= l < i ==> (#[trigger] vs[l]).id != PLAYER_ID,
            found ==> 0 <= idx < i && vs[idx as int].id == PLAYER_ID
                && (forall|l: int| 0 <= l < idx ==> (#[trigger] vs[l]).id != PLAYER_ID),
        decreases nearbys@.len() - i,
    {
        if !found && nearbys[i].id == PLAYER_ID {
            found = true;
            idx = i;
        }
        i = i + 1;
    }
    if found {
        let enemy = &nearbys[idx];
        attack_player(&actor, enemy, player_messages);
    } else {
        proof {
            assert(!has_player(vs));
        }
        random_behaviour(actor.id, player_messages);
    }
}

/// Picks a uniformly random behavior bucket for the ship `id` and appends
/// its Begin/Stop instruction pairs.
pub fn random_behaviour(id: i32, player_messages: &mut Vec<(i32, PlayerInstructions)>)
    ensures
        final(player_messages)@.len() >= old(player_messages)@.len(),
        final(player_messages)@.subrange(0, old(player_messages)@.len() as int)
            == old(player_messages)@,
        random_bucket(id, final(player_messages)@.skip(old(player_messages)@.len() as int)),
{
    let r = random_in_range(0, 100);
    if r <= 50 {
        player_messages.push((id, PlayerInstructions::StopRotateRight));
        player_messages.push((id, PlayerInstructions::StopRotateLeft));
        player_messages.push((id, PlayerInstructions::BeginIncreaseThrottle));
        proof {
            assert(final(player_messages)@.subrange(0, old(player_messages)@.len() as int)
                =~= old(player_messages)@);
            assert(final(player_messages)@.skip(old(player_messages)@.len() as int)
                =~= cruise_msgs(id));
        }
    } else if r <= 70 {
        player_messages.push((id, PlayerInstructions::BeginRotateLeft));
        player_messages.push((id, PlayerInstructions::StopRotateRight));
        player_messages.push((id, PlayerInstructions::StopIncreaseThrottle));
        proof {
            assert(final(player_messages)@.subrange(0, old(player_messages)@.len() as int)
                =~= old(player_messages)@);
            assert(final(player_messages)@.skip(old(player_messages)@.len() as int)
                =~= turn_left_msgs(id));
        }
    } else if r <= 90 {
        player_messages.push((id, PlayerInstructions::BeginRotateRight));
        player_messages.push((id, PlayerInstructions::StopRotateLeft));
        player_messages.push((id, PlayerInstructions::StopIncreaseThrottle));
        proof {
            assert(final(player_messages)@.subrange(0, old(player_messages)@.len() as int)
                =~= old(player_messages)@);
            assert(final(player_messages)@.skip(old(player_messages)@.len() as int)
                =~= turn_right_msgs(id));
        }
    } else {
        player_messages.push((id, PlayerInstructions::StopRotateRight));
        player_messages.push((id, PlayerInstructions::StopRotateLeft));
        player_messages.push((id, PlayerInstructions::StopIncreaseThrottle));
        proof {
            assert(final(player_messages)@.subrange(0, old(player_messages)@.len() as int)
                =~= old(player_messages)@);
            assert(final(player_messages)@.skip(old(player_messages)@.len() as int)
                =~= idle_msgs(id));
        }
    }
}

/// Runs one attack step of `actor` against the player's snapshot `enemy`:
/// thrust and fire when the heading is within the aim tolerance of the
/// bearing to the player, otherwise turn toward it.
pub fn attack_player(
    actor: &ActorView,
    enemy: &ActorView,
    player_messages: &mut Vec<(i32, PlayerInstructions)>,
)
    requires
        actor@.wf(),
        enemy@.wf(),
    ensures
        final(player_messages)@ == old(player_messages)@ + attack_msgs(actor@, enemy@),
{
    let dx = enemy.x - actor.x;
    let dy = enemy.y - actor.y;
    let ideal_rotation = atan2_milli(dx, dy);
    let player_rotation = actor.rotation;
    let d_rotation = ideal_rotation - player_rotation;
    if d_rotation < AIM_TOLERANCE && d_rotation > -AIM_TOLERANCE {
        player_messages.push((actor.id, PlayerInstructions::BeginIncreaseThrottle));
        player_messages.push((actor.id, PlayerInstructions::Fire));
        player_messages.push((actor.id, PlayerInstructions::StopRotateLeft));
        player_messages.push((actor.id, PlayerInstructions::StopRotateRight));
    } else if d_rotation < 0 {
        player_messages.push((actor.id, PlayerInstructions::BeginRotateLeft));
        player_messages.push((actor.id, PlayerInstructions::StopRotateRight));
    } else {
        player_messages.push((actor.id, PlayerInstructions::StopRotateLeft));
        player_messages.push((actor.id, PlayerInstructions::BeginRotateRight));
    }
    proof {
        assert(final(player_messages)@ =~= old(player_messages)@ + attack_msgs(actor@, enemy@));
    }
}

/// Every instruction an attack run writes is targeted at the ship that
/// runs it.
pub proof fn lemma_attack_msgs_target(actor: ViewModel, enemy: ViewModel)
    ensures
        forall|i: int|
            0 <= i < attack_msgs(actor, enemy).len()
                ==> (#[trigger] attack_msgs(actor, enemy)[i]).0 == actor.id,
{
}

/// Every instruction a random behavior bucket writes is targeted at the
/// ship it was drawn for.
pub proof fn lemma_bucket_targets(id: i32, added: Seq<(i32, PlayerInstructions)>)
    requires
        random_bucket(id, added),
    ensures
        forall|i: int| 0 <= i < added.len() ==> (#[trigger] added[i]).0 == id,
{
}

} // verus!
