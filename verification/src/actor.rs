//! The shared actor capability contract.
//!
//! Every simulated entity implements `Actor`: it advances by one tick with
//! `update`, applies targeted instructions with `execute`, and exports an
//! immutable snapshot with `get_view`.  The mathematical snapshot is
//! `ViewModel`; contracts all speak in terms of it.

use vstd::prelude::*;
use crate::messages::GameInstructions;
use crate::messages::PlayerInstructions;
use crate::fixed::COORD_LIMIT;

verus! {

/// How an overlap with this actor is interpreted.
#[derive(Clone, Copy, Debug, PartialEq, Eq, Structural)]
pub enum CollisionType {
    Collide,
    Collect,
    Ignore,
}

/// The mathematical value of an actor snapshot.  Positions, sizes and the
/// meter are in milli-units, the rotation in milli-degrees.
pub ghost struct ViewModel {
    pub id: i32,
    pub parent: i32,
    pub x: i64,
    pub y: i64,
    pub width: i64,
    pub height: i64,
    pub rotation: i64,
    pub shape: Seq<i64>,
    pub color: Seq<i64>,
    pub collision_type: CollisionType,
    pub show_secondary: bool,
    pub secondary_shape: Option<Seq<i64>>,
    pub secondary_color: Option<Seq<i64>>,
    pub meter: i64,
}

/// The largest half-extent an actor can take, in milli-units.
pub const SIZE_LIMIT: i64 = 1_000_000_000;

/// The player ship's reserved actor id.
pub const PLAYER_ID: i32 = 1;

impl ViewModel {
    /// Positions stay on the modelled board, sizes are bounded, and the
    /// rotation is a folded angle.
    pub open spec fn wf(self) -> bool {
        &&& -COORD_LIMIT <= self.x <= COORD_LIMIT
        &&& -COORD_LIMIT <= self.y <= COORD_LIMIT
        &&& 0 <= self.width <= SIZE_LIMIT
        &&& 0 <= self.height <= SIZE_LIMIT
        &&& 0 <= self.rotation < 360000
    }
}

/// An immutable snapshot of an actor, produced fresh by each `get_view`
/// query: enough for rendering and for collision detection.
#[derive(Clone, Debug, PartialEq)]
pub struct ActorView {
    pub id: i32,
    pub parent: i32,
    pub x: i64,
    pub y: i64,
    pub width: i64,
    pub height: i64,
    pub rotation: i64,
    pub shape: Vec<i64>,
    pub color: Vec<i64>,
    pub collision_type: CollisionType,
    pub show_secondary: bool,
    pub secondary_shape: Option<Vec<i64>>,
    pub secondary_color: Option<Vec<i64>>,
    pub meter: i64,
}

impl View for ActorView {
    type V = ViewModel;

    open spec fn view(&self) -> ViewModel {
        ViewModel {
            id: self.id,
            parent: self.parent,
            x: self.x,
            y: self.y,
            width: self.width,
            height: self.height,
            rotation: self.rotation,
            shape: self.shape@,
            color: self.color@,
            collision_type: self.collision_type,
            show_secondary: self.show_secondary,
            secondary_shape: match self.secondary_shape {
                Some(ref s) => Some(s@),
                None => None,
            },
            secondary_color: match self.secondary_color {
                Some(ref s) => Some(s@),
                None => None,
            },
            meter: self.meter,
        }
    }
}

/// Copies a vector of plain values, element by element.
fn copy_vec_i64(v: &Vec<i64>) -> (r: Vec<i64>)
    ensures
        r@ == v@,
{
    let mut r: Vec<i64> = Vec::new();
    let mut i: usize = 0;
    while i < v.len()
        invariant
            0 <= i <= v@.len(),
            r@ == v@.take(i as int),
        decreases v@.len() - i,
    {
        r.push(v[i]);
        proof {
            assert(r@ =~= v@.take(i + 1));
        }
        i = i + 1;
    }
    proof {
        assert(v@.take(v@.len() as int) =~= v@);
    }
    r
}

impl ActorView {
    /// A copy of this snapshot presenting the same model.
    pub fn clone_view(&self) -> (r: ActorView)
        ensures
            r@ == self@,
    {
        ActorView {
            id: self.id,
            parent: self.parent,
            x: self.x,
            y: self.y,
            width: self.width,
            height: self.height,
            rotation: self.rotation,
            shape: copy_vec_i64(&self.shape),
            color: copy_vec_i64(&self.color),
            collision_type: self.collision_type,
            show_secondary: self.show_secondary,
            secondary_shape: match &self.secondary_shape {
                Some(s) => Some(copy_vec_i64(s)),
                None => None,
            },
            secondary_color: match &self.secondary_color {
                Some(s) => Some(copy_vec_i64(s)),
                None => None,
            },
            meter: self.meter,
        }
    }
}

/// The models of a list of snapshots.
pub open spec fn model_seq(vs: Seq<ActorView>) -> Seq<ViewModel> {
    vs.map_values(|v: ActorView| v@)
}

/// `post` extends `pre` without touching what was already there.
pub open spec fn appends(
    pre: Seq<(GameInstructions, ActorView)>,
    post: Seq<(GameInstructions, ActorView)>,
) -> bool {
    &&& post.len() >= pre.len()
    &&& post.subrange(0, pre.len() as int) == pre
}

/// The entries `post` added after `pre`.
pub open spec fn emitted(
    pre: Seq<(GameInstructions, ActorView)>,
    post: Seq<(GameInstructions, ActorView)>,
) -> Seq<(GameInstructions, ActorView)> {
    post.skip(pre.len() as int)
}

/// The capability contract every variant implements.
///
/// `view`, `alive` and `wf` are each variant's own mathematical state;
/// `updated` and `executed` describe the variant's step relation exactly, so
/// callers of the trait methods learn, for a concrete variant, precisely what
/// one tick or one instruction did.
pub trait Actor: Sized {
    /// The snapshot this actor currently presents.
    spec fn view(&self) -> ViewModel;

    /// Whether the actor is still part of the simulation.
    spec fn alive(&self) -> bool;

    /// The variant's internal invariant.
    spec fn wf(&self) -> bool;

    /// The exact relation between the states before and after one `update`
    /// tick, together with the events the tick emitted.
    spec fn updated(pre: Self, post: Self, emitted: Seq<(GameInstructions, ActorView)>) -> bool;

    /// The exact relation between the states before and after applying one
    /// instruction, together with the events it emitted.
    spec fn executed(
        pre: Self,
        msg: PlayerInstructions,
        post: Self,
        emitted: Seq<(GameInstructions, ActorView)>,
    ) -> bool;

    /// Advance internal physics and timers by one tick; may emit events
    /// tagged with this actor's own snapshot.
    fn update(&mut self, output_messages: &mut Vec<(GameInstructions, ActorView)>)
        requires
            old(self).wf(),
        ensures
            final(self).wf(),
            final(self).view().id == old(self).view().id,
            final(self).view().parent == old(self).view().parent,
            !old(self).alive() ==> !final(self).alive(),
            appends(old(output_messages)@, final(output_messages)@),
            forall|k: int|
                old(output_messages)@.len() <= k < final(output_messages)@.len()
                    ==> (#[trigger] final(output_messages)@[k]).1@.id == old(self).view().id
                        && final(output_messages)@[k].1@.wf(),
            Self::updated(
                *old(self),
                *final(self),
                emitted(old(output_messages)@, final(output_messages)@),
            ),
    ;

    /// A pure snapshot: two queries without an intervening mutation return
    /// the same value.
    fn get_view(&self) -> (v: ActorView)
        requires
            self.wf(),
        ensures
            v@ == self.view(),
            v@.wf(),
    ;

    /// Apply one targeted instruction; instructions a variant does not
    /// recognize are no-ops.
    fn execute(
        &mut self,
        message: &PlayerInstructions,
        output_messages: &mut Vec<(GameInstructions, ActorView)>,
    )
        requires
            old(self).wf(),
        ensures
            final(self).wf(),
            final(self).view().id == old(self).view().id,
            final(self).view().parent == old(self).view().parent,
            !old(self).alive() ==> !final(self).alive(),
            appends(old(output_messages)@, final(output_messages)@),
            forall|k: int|
                old(output_messages)@.len() <= k < final(output_messages)@.len()
                    ==> (#[trigger] final(output_messages)@[k]).1@.id == old(self).view().id
                        && final(output_messages)@[k].1@.wf(),
            Self::executed(
                *old(self),
                *message,
                *final(self),
                emitted(old(output_messages)@, final(output_messages)@),
            ),
    ;

    /// Force the actor out of the simulation; its snapshot is unchanged.
    fn kill(&mut self)
        requires
            old(self).wf(),
        ensures
            final(self).wf(),
            !final(self).alive(),
            final(self).view() == old(self).view(),
    ;

    /// The actor's id.
    fn get_id(&self) -> (id: i32)
        ensures
            id == self.view().id,
    ;

    /// Whether the actor is still alive.
    fn is_alive(&self) -> (a: bool)
        ensures
            a == self.alive(),
    ;
}

/// Every actor in the list satisfies its invariant.
pub open spec fn all_wf<T: Actor>(s: Seq<T>) -> bool {
    forall|k: int| 0 <= k < s.len() ==> (#[trigger] s[k]).wf()
}

/// The ids in the list are strictly increasing front to back.
pub open spec fn ids_strictly_increasing<T: Actor>(s: Seq<T>) -> bool {
    forall|k1: int, k2: int|
        0 <= k1 < k2 < s.len() ==> (#[trigger] s[k1]).view().id < (#[trigger] s[k2]).view().id
}

/// Every id in the list lies in `[lo, hi]`.
pub open spec fn ids_between<T: Actor>(s: Seq<T>, lo: int, hi: int) -> bool {
    forall|k: int| 0 <= k < s.len() ==> lo <= (#[trigger] s[k]).view().id <= hi
}

/// No id occurs in both lists.
pub open spec fn ids_disjoint<T: Actor, U: Actor>(s: Seq<T>, t: Seq<U>) -> bool {
    forall|k: int, l: int|
        0 <= k < s.len() && 0 <= l < t.len()
            ==> (#[trigger] s[k]).view().id != (#[trigger] t[l]).view().id
}

/// Whether some actor in the list carries the id.
pub open spec fn has_id<T: Actor>(s: Seq<T>, id: int) -> bool {
    exists|k: int| 0 <= k < s.len() && (#[trigger] s[k]).view().id == id
}

/// The snapshots of every actor in the list, in order.
pub open spec fn views_of<T: Actor>(s: Seq<T>) -> Seq<ViewModel> {
    s.map_values(|a: T| a.view())
}

/// Whether this variant's step relations can never end a live actor's
/// life: neither a tick nor any instruction kills it.
pub open spec fn immortal_steps<T: Actor>() -> bool {
    &&& forall|pre: T, post: T, em: Seq<(GameInstructions, ActorView)>|
        pre.alive() && #[trigger] T::updated(pre, post, em) ==> post.alive()
    &&& forall|pre: T, msg: PlayerInstructions, post: T, em: Seq<(GameInstructions, ActorView)>|
        pre.alive() && #[trigger] T::executed(pre, msg, post, em) ==> post.alive()
}

/// The instructions of `msgs` targeted at `id`, in order.
pub open spec fn routed_to(msgs: Seq<(i32, PlayerInstructions)>, id: i32) -> Seq<PlayerInstructions>
    decreases msgs.len(),
{
    if msgs.len() == 0 {
        Seq::empty()
    } else {
        routed_to(msgs.drop_last(), id) + if msgs.last().0 == id {
            seq![msgs.last().1]
        } else {
            Seq::empty()
        }
    }
}

/// An instruction-by-instruction execution record: `states` walks from the
/// first to the last state, one instruction at a time, and `cuts` splits
/// `emitted` into the consecutive chunks the steps pushed.
pub open spec fn execution_record<T: Actor>(
    pre: T,
    instrs: Seq<PlayerInstructions>,
    post: T,
    emitted: Seq<(GameInstructions, ActorView)>,
    states: Seq<T>,
    cuts: Seq<int>,
) -> bool {
    &&& states.len() == instrs.len() + 1
    &&& cuts.len() == instrs.len() + 1
    &&& states[0] == pre
    &&& states[instrs.len() as int] == post
    &&& cuts[0] == 0
    &&& cuts[instrs.len() as int] == emitted.len()
    &&& forall|k: int| 0 <= k < instrs.len() ==> #[trigger] cuts[k] <= cuts[k + 1]
    &&& forall|k: int| 0 <= k <= instrs.len() ==> 0 <= #[trigger] cuts[k] <= emitted.len()
    &&& forall|k: int|
        0 <= k < instrs.len()
            ==> #[trigger] T::executed(
                states[k],
                instrs[k],
                states[k + 1],
                emitted.subrange(cuts[k], cuts[k + 1]),
            )
}

/// `post` results from `pre` by executing `instrs` in order; `emitted`
/// collects everything those steps pushed, in order.
pub open spec fn executed_all<T: Actor>(
    pre: T,
    instrs: Seq<PlayerInstructions>,
    post: T,
    emitted: Seq<(GameInstructions, ActorView)>,
) -> bool {
    exists|states: Seq<T>, cuts: Seq<int>|
        #![trigger execution_record(pre, instrs, post, emitted, states, cuts)]
        execution_record(pre, instrs, post, emitted, states, cuts)
}

/// One whole tick for a single actor: the instructions routed to its id, in
/// order, then one update step; `emitted` is everything it pushed.
pub open spec fn stepped<T: Actor>(
    pre: T,
    msgs: Seq<(i32, PlayerInstructions)>,
    post: T,
    emitted: Seq<(GameInstructions, ActorView)>,
) -> bool {
    exists|mid: T, cut: int|
        #![trigger executed_all(pre, routed_to(msgs, pre.view().id), mid, emitted.take(cut))]
        0 <= cut <= emitted.len()
            && executed_all(pre, routed_to(msgs, pre.view().id), mid, emitted.take(cut))
            && T::updated(mid, post, emitted.skip(cut))
}

/// The empty execution trace: no instructions, no change, no events.
pub proof fn lemma_executed_all_base<T: Actor>(pre: T)
    ensures
        executed_all(
            pre,
            Seq::<PlayerInstructions>::empty(),
            pre,
            Seq::<(GameInstructions, ActorView)>::empty(),
        ),
{
    let states: Seq<T> = seq![pre];
    let cuts: Seq<int> = seq![0];
    assert(execution_record(
        pre,
        Seq::<PlayerInstructions>::empty(),
        pre,
        Seq::<(GameInstructions, ActorView)>::empty(),
        states,
        cuts,
    ));
}

/// Executing one more instruction extends an execution trace.
pub proof fn lemma_executed_all_step<T: Actor>(
    pre: T,
    instrs: Seq<PlayerInstructions>,
    mid: T,
    em1: Seq<(GameInstructions, ActorView)>,
    instr: PlayerInstructions,
    post: T,
    em2: Seq<(GameInstructions, ActorView)>,
)
    requires
        executed_all(pre, instrs, mid, em1),
        T::executed(mid, instr, post, em2),
    ensures
        executed_all(pre, instrs.push(instr), post, em1 + em2),
{
    let (states, cuts) = choose|states: Seq<T>, cuts: Seq<int>|
        #![trigger execution_record(pre, instrs, mid, em1, states, cuts)]
        execution_record(pre, instrs, mid, em1, states, cuts);
    let states2 = states.push(post);
    let cuts2 = cuts.push((em1 + em2).len() as int);
    assert forall|k: int|
        0 <= k < instrs.push(instr).len() implies #[trigger] T::executed(
            states2[k],
            instrs.push(instr)[k],
            states2[k + 1],
            (em1 + em2).subrange(cuts2[k], cuts2[k + 1]),
        ) by {
        if k < instrs.len() {
            assert(T::executed(states[k], instrs[k], states[k + 1], em1.subrange(
                cuts[k],
                cuts[k + 1],
            )));
            assert((em1 + em2).subrange(cuts2[k], cuts2[k + 1]) =~= em1.subrange(
                cuts[k],
                cuts[k + 1],
            ));
        } else {
            assert(states2[k] == mid && states2[k + 1] == post);
            assert((em1 + em2).subrange(cuts2[k], cuts2[k + 1]) =~= em2);
        }
    }
    assert(execution_record(pre, instrs.push(instr), post, em1 + em2, states2, cuts2));
}

/// Sealing an execution trace with one update step makes a whole tick.
pub proof fn lemma_stepped<T: Actor>(
    pre: T,
    msgs: Seq<(i32, PlayerInstructions)>,
    mid: T,
    em1: Seq<(GameInstructions, ActorView)>,
    post: T,
    em2: Seq<(GameInstructions, ActorView)>,
)
    requires
        executed_all(pre, routed_to(msgs, pre.view().id), mid, em1),
        T::updated(mid, post, em2),
    ensures
        stepped(pre, msgs, post, em1 + em2),
{
    assert((em1 + em2).take(em1.len() as int) =~= em1);
    assert((em1 + em2).skip(em1.len() as int) =~= em2);
    assert(executed_all(
        pre,
        routed_to(msgs, pre.view().id),
        mid,
        (em1 + em2).take(em1.len() as int),
    ));
    assert(T::updated(mid, post, (em1 + em2).skip(em1.len() as int)));
}

/// Chaining two extensions of an event list splits its tail in two.
pub proof fn lemma_skip_chain(
    base: Seq<(GameInstructions, ActorView)>,
    mid: Seq<(GameInstructions, ActorView)>,
    end: Seq<(GameInstructions, ActorView)>,
)
    requires
        appends(base, mid),
        appends(mid, end),
    ensures
        end.skip(base.len() as int) == mid.skip(base.len() as int) + end.skip(mid.len() as int),
{
    assert forall|k: int| 0 <= k < base.len() implies end.subrange(0, base.len() as int)[k]
        == base[k] by {
        assert(mid.subrange(0, base.len() as int)[k] == base[k]);
        assert(end.subrange(0, mid.len() as int)[k] == mid[k]);
    }
    assert forall|k: int|
        0 <= k < mid.len() - base.len() implies end.skip(base.len() as int)[k]
            == mid.skip(base.len() as int)[k] by {
        assert(end.subrange(0, mid.len() as int)[base.len() + k] == mid[base.len() + k]);
    }
    assert(end.skip(base.len() as int) =~= mid.skip(base.len() as int) + end.skip(
        mid.len() as int,
    ));
}

/// A later extension's tail contains an earlier extension's chunk intact.
pub proof fn lemma_event_segment(
    base: Seq<(GameInstructions, ActorView)>,
    lo: Seq<(GameInstructions, ActorView)>,
    hi: Seq<(GameInstructions, ActorView)>,
    end: Seq<(GameInstructions, ActorView)>,
)
    requires
        appends(base, lo),
        appends(lo, hi),
        appends(hi, end),
    ensures
        end.skip(base.len() as int).subrange(
            lo.len() - base.len(),
            hi.len() - base.len(),
        ) == hi.skip(lo.len() as int),
{
    assert forall|j: int|
        0 <= j < hi.len() - lo.len() implies end.skip(base.len() as int).subrange(
            lo.len() - base.len(),
            hi.len() - base.len(),
        )[j] == hi.skip(lo.len() as int)[j] by {
        assert(end.subrange(0, hi.len() as int)[lo.len() + j] == hi[lo.len() + j]);
    }
    assert(end.skip(base.len() as int).subrange(lo.len() - base.len(), hi.len() - base.len())
        =~= hi.skip(lo.len() as int));
}

/// Whether the variant's step relations keep a live actor alive through
/// one tick, given the instruction list the tick may route to the id.
pub open spec fn steps_keep_alive<T: Actor>(
    msgs: Seq<(i32, PlayerInstructions)>,
    id: i32,
) -> bool {
    &&& forall|pre: T, post: T, em: Seq<(GameInstructions, ActorView)>|
        pre.alive() && #[trigger] T::updated(pre, post, em) ==> post.alive()
    &&& forall|pre: T, msg: PlayerInstructions, post: T, em: Seq<(GameInstructions, ActorView)>|
        pre.alive() && msgs.contains((id, msg)) && #[trigger] T::executed(pre, msg, post, em)
            ==> post.alive()
}

/// A variant whose steps never kill keeps any actor alive under any
/// instruction list.
pub proof fn lemma_immortal_keeps_alive<T: Actor>(msgs: Seq<(i32, PlayerInstructions)>, id: i32)
    requires
        immortal_steps::<T>(),
    ensures
        steps_keep_alive::<T>(msgs, id),
{
}

/// `post` is what one tick's pruning leaves of `pre`: every survivor is
/// alive, and carries the id of an actor that entered the tick alive.
pub open spec fn pruned<T: Actor>(pre: Seq<T>, post: Seq<T>) -> bool {
    &&& forall|k: int| 0 <= k < post.len() ==> (#[trigger] post[k]).alive()
    &&& forall|k: int|
        0 <= k < post.len()
            ==> exists|j: int|
                0 <= j < pre.len() && (#[trigger] post[k]).view().id == (#[trigger] pre[j]).view().id
                    && pre[j].alive()
}

/// Pruning keeps every id within the bounds the list had before.
pub proof fn lemma_pruned_ids_between<T: Actor>(pre: Seq<T>, post: Seq<T>, lo: int, hi: int)
    requires
        pruned(pre, post),
        ids_between(pre, lo, hi),
    ensures
        ids_between(post, lo, hi),
{
    assert forall|k: int|
        0 <= k < post.len() implies lo <= (#[trigger] post[k]).view().id <= hi by {
        let j = choose|j: int|
            0 <= j < pre.len() && post[k].view().id == (#[trigger] pre[j]).view().id
                && pre[j].alive();
        assert(lo <= pre[j].view().id <= hi);
    }
}

/// Pruning two lists with disjoint ids leaves their ids disjoint.
pub proof fn lemma_pruned_ids_disjoint<T: Actor, U: Actor>(
    pre_a: Seq<T>,
    post_a: Seq<T>,
    pre_b: Seq<U>,
    post_b: Seq<U>,
)
    requires
        pruned(pre_a, post_a),
        pruned(pre_b, post_b),
        ids_disjoint(pre_a, pre_b),
    ensures
        ids_disjoint(post_a, post_b),
{
    assert forall|k: int, l: int|
        0 <= k < post_a.len() && 0 <= l < post_b.len() implies (#[trigger] post_a[k]).view().id
            != (#[trigger] post_b[l]).view().id by {
        let ja = choose|j: int|
            0 <= j < pre_a.len() && post_a[k].view().id == (#[trigger] pre_a[j]).view().id
                && pre_a[j].alive();
        let jb = choose|j: int|
            0 <= j < pre_b.len() && post_b[l].view().id == (#[trigger] pre_b[j]).view().id
                && pre_b[j].alive();
        assert(pre_a[ja].view().id != pre_b[jb].view().id);
    }
}

/// Appending is reflexive.
pub proof fn lemma_appends_refl(s: Seq<(GameInstructions, ActorView)>)
    ensures
        appends(s, s),
{
    assert(s.subrange(0, s.len() as int) =~= s);
}

/// Appending is transitive.
pub proof fn lemma_appends_trans(
    a: Seq<(GameInstructions, ActorView)>,
    b: Seq<(GameInstructions, ActorView)>,
    c: Seq<(GameInstructions, ActorView)>,
)
    requires
        appends(a, b),
        appends(b, c),
    ensures
        appends(a, c),
{
    assert forall|k: int| 0 <= k < a.len() implies c.subrange(0, a.len() as int)[k] == a[k] by {
        assert(b.subrange(0, a.len() as int)[k] == a[k]);
        assert(c.subrange(0, b.len() as int)[k] == b[k]);
    }
    assert(c.subrange(0, a.len() as int) =~= a);
}

/// An actor dead in the list before the tick is absent after the pruning
/// pass: no survivor carries its id.
pub proof fn lemma_killed_absent<T: Actor>(pre: Seq<T>, post: Seq<T>, j: int)
    requires
        pruned(pre, post),
        ids_strictly_increasing(pre),
        0 <= j < pre.len(),
        !pre[j].alive(),
    ensures
        forall|k: int|
            0 <= k < post.len() ==> (#[trigger] post[k]).view().id != pre[j].view().id,
{
    assert forall|k: int|
        0 <= k < post.len() implies (#[trigger] post[k]).view().id != pre[j].view().id by {
        let j2 = choose|j2: int|
            0 <= j2 < pre.len() && post[k].view().id == (#[trigger] pre[j2]).view().id
                && pre[j2].alive();
        if j2 != j && post[k].view().id == pre[j].view().id {
            if j2 < j {
                assert(pre[j2].view().id < pre[j].view().id);
            } else {
                assert(pre[j].view().id < pre[j2].view().id);
            }
        }
    }
}

/// Two snapshot queries of the same live actor give identical results: the
/// view is pure.
pub fn view_test<T: Actor>(actor: T)
    requires
        actor.wf(),
{
    let v1 = actor.get_view();
    let v2 = actor.get_view();
    proof {
        assert(v1@ == v2@);
    }
}

} // verus!
