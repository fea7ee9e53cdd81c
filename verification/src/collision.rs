//! Pairwise collision detection over actor snapshots.
//!
//! Once per tick, every ordered pair of snapshots is examined: the pair is
//! skipped when either id is the sentinel zero, when the ids coincide, when
//! either actor is the other's parent, or when either side ignores
//! collisions; a cheap fixed-bound axis filter runs before the exact
//! axis-aligned box test.  An overlap is classified by the second actor's
//! collision type and becomes an instruction targeted at the first.

use vstd::prelude::*;
use crate::actor::ActorView;
use crate::actor::CollisionType;
use crate::actor::model_seq;
use crate::actor::ViewModel;
use crate::fixed::abs64;
use crate::fixed::mag;
use crate::messages::PlayerInstructions;

verus! {

/// The cheap pre-filter's half-width, in milli-units.
pub const NEAR_LIMIT: i64 = 1_000_000;

/// Whether the ordered pair `(a, b)` is examined at all.
pub open spec fn pair_eligible(a: ViewModel, b: ViewModel) -> bool {
    &&& a.id != 0
    &&& b.id != 0
    &&& a.id != b.id
    &&& a.id != b.parent
    &&& b.id != a.parent
    &&& a.collision_type != CollisionType::Ignore
    &&& b.collision_type != CollisionType::Ignore
}

/// The cheap axis filter: both center distances within the fixed bound.
pub open spec fn near(a: ViewModel, b: ViewModel) -> bool {
    &&& mag(a.x - b.x) <= NEAR_LIMIT
    &&& mag(a.y - b.y) <= NEAR_LIMIT
}

/// The exact test: the axis-aligned boxes spanned by each actor's half
/// extents around its center overlap.
pub open spec fn boxes_overlap(a: ViewModel, b: ViewModel) -> bool {
    &&& a.x + a.width > b.x - b.width
    &&& a.x - a.width < b.x + b.width
    &&& a.y + a.height > b.y - b.height
    &&& a.y - a.height < b.y + b.height
}

/// The instruction the ordered pair `(a, b)` contributes: an overlap is
/// classified by `b`'s collision type and targeted at `a`'s id.
pub open spec fn pair_instruction(a: ViewModel, b: ViewModel) -> Option<(i32, PlayerInstructions)> {
    if pair_eligible(a, b) && near(a, b) && boxes_overlap(a, b) {
        match b.collision_type {
            CollisionType::Collide => Some((a.id, PlayerInstructions::Collide)),
            CollisionType::Collect => Some((a.id, PlayerInstructions::Collect)),
            CollisionType::Ignore => None,
        }
    } else {
        None
    }
}

/// The instructions actor `a` receives against every snapshot in `vs`, in
/// order.
pub open spec fn row_msgs(a: ViewModel, vs: Seq<ViewModel>) -> Seq<(i32, PlayerInstructions)>
    decreases vs.len(),
{
    if vs.len() == 0 {
        Seq::empty()
    } else {
        row_msgs(a, vs.drop_last()) + match pair_instruction(a, vs.last()) {
            Some(m) => seq![m],
            None => Seq::empty(),
        }
    }
}

/// The instructions the first `n` actors receive, row by row.
pub open spec fn collision_rows(vs: Seq<ViewModel>, n: int) -> Seq<(i32, PlayerInstructions)>
    decreases n,
{
    if n <= 0 {
        Seq::empty()
    } else {
        collision_rows(vs, n - 1) + row_msgs(vs[n - 1], vs)
    }
}

/// Every instruction one tick of collision detection produces on the
/// snapshots `vs`.
pub open spec fn collision_msgs(vs: Seq<ViewModel>) -> Seq<(i32, PlayerInstructions)> {
    collision_rows(vs, vs.len() as int)
}

/// Runs collision detection over `actors` and appends the produced
/// instructions, in order, to `messages`.
pub fn calculate_collisions(actors: &Vec<ActorView>, messages: &mut Vec<(i32, PlayerInstructions)>)
    requires
        forall|k: int| 0 <= k < actors@.len() ==> (#[trigger] actors@[k])@.wf(),
    ensures
        final(messages)@ == old(messages)@ + collision_msgs(model_seq(actors@)),
{
    let ghost vs = model_seq(actors@);
    let ghost pre = old(messages)@;
    let mut i: usize = 0;
    while i < actors.len()
        invariant
            0 <= i <= actors@.len(),
            vs == model_seq(actors@),
            vs.len() == actors@.len(),
            forall|k: int| 0 <= k < actors@.len() ==> (#[trigger] actors@[k])@.wf(),
            forall|k: int| 0 <= k < vs.len() ==> #[trigger] vs[k] == actors@[k]@,
            messages@ == pre + collision_rows(vs, i as int),
        decreases actors@.len() - i,
    {
        let mut j: usize = 0;
        while j < actors.len()
            invariant
                0 <= i < actors@.len(),
                0 <= j <= actors@.len(),
                vs == model_seq(actors@),
                vs.len() == actors@.len(),
                forall|k: int| 0 <= k < actors@.len() ==> (#[trigger] actors@[k])@.wf(),
                forall|k: int| 0 <= k < vs.len() ==> #[trigger] vs[k] == actors@[k]@,
                messages@ == pre + collision_rows(vs, i as int) + row_msgs(vs[i as int], vs.take(j as int)),
            decreases actors@.len() - j,
        {
            proof {
                assert(vs.take(j + 1).drop_last() =~= vs.take(j as int));
                assert(vs.take(j + 1).last() == vs[j as int]);
            }
            let a1 = &actors[i];
            let a2 = &actors[j];
            let skip_pair = a1.id == 0 || a2.id == 0 || a1.id == a2.id || a1.id == a2.parent
                || a2.id == a1.parent || a1.collision_type == CollisionType::Ignore
                || a2.collision_type == CollisionType::Ignore;
            if !skip_pair {
                if !(abs64(a1.x - a2.x) > NEAR_LIMIT || abs64(a1.y - a2.y) > NEAR_LIMIT) {
                    if a1.x + a1.width > a2.x - a2.width && a1.x - a1.width < a2.x + a2.width
                        && a1.y + a1.height > a2.y - a2.height && a1.y - a1.height < a2.y + a2.height {
                        match a2.collision_type {
                            CollisionType::Collide => messages.push((a1.id, PlayerInstructions::Collide)),
                            CollisionType::Collect => messages.push((a1.id, PlayerInstructions::Collect)),
                            CollisionType::Ignore => {},
                        }
                    }
                }
            }
            proof {
                assert(messages@ =~= pre + collision_rows(vs, i as int)
                    + row_msgs(vs[i as int], vs.take(j + 1)));
            }
            j = j + 1;
        }
        proof {
            assert(vs.take(vs.len() as int) =~= vs);
            assert(messages@ =~= pre + collision_rows(vs, i + 1));
        }
        i = i + 1;
    }
    proof {
        assert(messages@ =~= pre + collision_msgs(vs));
    }
}

/// A message inside either half of a concatenation is inside the whole.
proof fn lemma_add_contains(
    s1: Seq<(i32, PlayerInstructions)>,
    s2: Seq<(i32, PlayerInstructions)>,
    m: (i32, PlayerInstructions),
)
    requires
        s1.contains(m) || s2.contains(m),
    ensures
        (s1 + s2).contains(m),
{
    if s1.contains(m) {
        let k = choose|k: int| 0 <= k < s1.len() && s1[k] == m;
        assert((s1 + s2)[k] == m);
    } else {
        let k = choose|k: int| 0 <= k < s2.len() && s2[k] == m;
        assert((s1 + s2)[s1.len() + k] == m);
    }
}

/// The row of `a` holds the instruction `a` gets against any single
/// snapshot of `vs`.
proof fn lemma_row_contains(a: ViewModel, vs: Seq<ViewModel>, j: int)
    requires
        0 <= j < vs.len(),
        pair_instruction(a, vs[j]) is Some,
    ensures
        row_msgs(a, vs).contains(pair_instruction(a, vs[j])->Some_0),
    decreases vs.len(),
{
    let m = pair_instruction(a, vs[j])->Some_0;
    if j == vs.len() - 1 {
        assert(vs.last() == vs[j]);
        assert(seq![m][0] == m);
        assert(seq![m].contains(m));
        lemma_add_contains(
            row_msgs(a, vs.drop_last()),
            seq![m],
            m,
        );
    } else {
        assert(vs.drop_last()[j] == vs[j]);
        lemma_row_contains(a, vs.drop_last(), j);
        match pair_instruction(a, vs.last()) {
            Some(m2) => {
                lemma_add_contains(row_msgs(a, vs.drop_last()), seq![m2], m);
            },
            None => {
                lemma_add_contains(row_msgs(a, vs.drop_last()), Seq::empty(), m);
            },
        }
    }
}

/// The full instruction list holds whatever any single ordered pair of
/// snapshots produces: collision detection misses no eligible overlap.
pub proof fn lemma_collision_complete(vs: Seq<ViewModel>, i: int, j: int)
    requires
        0 <= i < vs.len(),
        0 <= j < vs.len(),
        pair_instruction(vs[i], vs[j]) is Some,
    ensures
        collision_msgs(vs).contains(pair_instruction(vs[i], vs[j])->Some_0),
{
    lemma_row_contains(vs[i], vs, j);
    lemma_rows_contain(vs, vs.len() as int, i, pair_instruction(vs[i], vs[j])->Some_0);
}

/// A message in the row of actor `i < n` is among the first `n` rows.
proof fn lemma_rows_contain(vs: Seq<ViewModel>, n: int, i: int, m: (i32, PlayerInstructions))
    requires
        0 <= i < n <= vs.len(),
        row_msgs(vs[i], vs).contains(m),
    ensures
        collision_rows(vs, n).contains(m),
    decreases n,
{
    if i == n - 1 {
        lemma_add_contains(collision_rows(vs, n - 1), row_msgs(vs[n - 1], vs), m);
    } else {
        lemma_rows_contain(vs, n - 1, i, m);
        lemma_add_contains(collision_rows(vs, n - 1), row_msgs(vs[n - 1], vs), m);
    }
}

/// Every produced message is the contribution of some ordered pair: no
/// instruction appears out of thin air.
pub proof fn lemma_collision_sound(vs: Seq<ViewModel>, m: (i32, PlayerInstructions))
    requires
        collision_msgs(vs).contains(m),
    ensures
        exists|i: int, j: int|
            0 <= i < vs.len() && 0 <= j < vs.len()
                && pair_instruction(#[trigger] vs[i], #[trigger] vs[j]) == Some(m),
{
    lemma_rows_sound(vs, vs.len() as int, m);
}

/// A message among the first `n` rows comes from some pair with `i < n`.
proof fn lemma_rows_sound(vs: Seq<ViewModel>, n: int, m: (i32, PlayerInstructions))
    requires
        0 <= n <= vs.len(),
        collision_rows(vs, n).contains(m),
    ensures
        exists|i: int, j: int|
            0 <= i < vs.len() && 0 <= j < vs.len()
                && pair_instruction(#[trigger] vs[i], #[trigger] vs[j]) == Some(m),
    decreases n,
{
    if n <= 0 {
        assert(false);
    } else {
        let s1 = collision_rows(vs, n - 1);
        let s2 = row_msgs(vs[n - 1], vs);
        let k = choose|k: int| 0 <= k < (s1 + s2).len() && (s1 + s2)[k] == m;
        if k < s1.len() {
            assert(s1[k] == m);
            lemma_rows_sound(vs, n - 1, m);
        } else {
            assert(s2[k - s1.len()] == m);
            lemma_row_sound(vs[n - 1], vs, m);
            let j = choose|j: int|
                0 <= j < vs.len() && pair_instruction(vs[n - 1], #[trigger] vs[j]) == Some(m);
            assert(pair_instruction(vs[n - 1], vs[j]) == Some(m));
        }
    }
}

/// A message in the row of `a` comes from `a` against some snapshot.
proof fn lemma_row_sound(a: ViewModel, vs: Seq<ViewModel>, m: (i32, PlayerInstructions))
    requires
        row_msgs(a, vs).contains(m),
    ensures
        exists|j: int| 0 <= j < vs.len() && pair_instruction(a, #[trigger] vs[j]) == Some(m),
    decreases vs.len(),
{
    if vs.len() == 0 {
        assert(false);
    } else {
        let s1 = row_msgs(a, vs.drop_last());
        let k = choose|k: int| 0 <= k < row_msgs(a, vs).len() && row_msgs(a, vs)[k] == m;
        if k < s1.len() {
            assert(s1[k] == m);
            lemma_row_sound(a, vs.drop_last(), m);
            let j = choose|j: int|
                0 <= j < vs.drop_last().len() && pair_instruction(a, #[trigger] vs.drop_last()[j])
                    == Some(m);
            assert(vs.drop_last()[j] == vs[j]);
            assert(pair_instruction(a, vs[j]) == Some(m));
        } else {
            assert(pair_instruction(a, vs.last()) == Some(m));
            assert(vs.last() == vs[vs.len() - 1]);
            assert(pair_instruction(a, vs[vs.len() - 1]) == Some(m));
        }
    }
}

/// Two live snapshots with distinct ids, neither the other's parent, both
/// collide-typed, within the near filter and overlapping, each draw a
/// collide instruction: one targeted at each of them.
pub proof fn lemma_collision_symmetric(vs: Seq<ViewModel>, i: int, j: int)
    requires
        0 <= i < vs.len(),
        0 <= j < vs.len(),
        vs[i].id != 0,
        vs[j].id != 0,
        vs[i].id != vs[j].id,
        vs[i].parent != vs[j].id,
        vs[j].parent != vs[i].id,
        vs[i].collision_type == CollisionType::Collide,
        vs[j].collision_type == CollisionType::Collide,
        near(vs[i], vs[j]),
        boxes_overlap(vs[i], vs[j]),
    ensures
        collision_msgs(vs).contains((vs[i].id, PlayerInstructions::Collide)),
        collision_msgs(vs).contains((vs[j].id, PlayerInstructions::Collide)),
{
    lemma_collision_complete(vs, i, j);
    lemma_collision_complete(vs, j, i);
}

/// A parent and its child contribute no instruction against each other, in
/// either order.
pub proof fn lemma_parent_pair_excluded(a: ViewModel, b: ViewModel)
    requires
        a.parent == b.id || b.parent == a.id,
    ensures
        pair_instruction(a, b) is None,
        pair_instruction(b, a) is None,
{
}

/// In a world of exactly a parent and its child, collision detection
/// produces nothing at all, whatever their positions.
pub proof fn lemma_no_parent_child_collision(vs: Seq<ViewModel>)
    requires
        vs.len() == 2,
        vs[0].parent == vs[1].id || vs[1].parent == vs[0].id,
    ensures
        collision_msgs(vs).len() == 0,
{
    assert forall|m: (i32, PlayerInstructions)| !collision_msgs(vs).contains(m) by {
        if collision_msgs(vs).contains(m) {
            lemma_collision_sound(vs, m);
            let (i, j) = choose|i: int, j: int|
                0 <= i < vs.len() && 0 <= j < vs.len()
                    && pair_instruction(#[trigger] vs[i], #[trigger] vs[j]) == Some(m);
            lemma_parent_pair_excluded(vs[0], vs[1]);
            assert(pair_instruction(vs[i], vs[i]) is None);
        }
    }
    if collision_msgs(vs).len() > 0 {
        assert(collision_msgs(vs).contains(collision_msgs(vs)[0]));
    }
}

} // verus!
