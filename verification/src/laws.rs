//! The library's stated laws: how the body's length evolves over a tick, and
//! that undo and reset really take the simulation back to the bootstrap
//! snapshot.

use vstd::prelude::*;

use crate::body::BodyView;
use crate::grid::GridPosition;
use crate::grid::WorldView;
use crate::history::spec_restored_body;
use crate::history::spec_restored_world;
use crate::history::spec_snapshot;
use crate::sim::spec_capture_step;
use crate::sim::spec_reset_step;
use crate::sim::spec_tick;
use crate::sim::spec_undo_step;
use crate::sim::SimView;
use crate::sim::TickInput;

verus! {

/// Length accounting: over any pipeline tick (one without a history
/// command), the body's length changes by exactly the food eaten minus the
/// poison eaten. In particular a tick that eats nothing keeps the length,
/// and poison at length 1 empties the body, the degenerate minimum.
pub proof fn lemma_tick_length_accounting(s: SimView, input: TickInput, settled: bool)
    requires
        input is Idle || input is Move,
    ensures
        ({
            let (s2, r) = spec_tick(s, input, settled);
            s2.body.segs.len() == s.body.segs.len() + (if r.ate_food {
                1int
            } else {
                0int
            }) - (if r.ate_poison {
                1int
            } else {
                0int
            })
        }),
{
    let p = crate::sim::spec_presses_of(input);
    let s1 = spec_capture_step(s);
    assert(s1.body == s.body);
    let b2 = crate::growth::spec_food_body(s1.body, s1.world);
    let w2 = crate::growth::spec_food_world(s1.body, s1.world);
    let b3 = crate::growth::spec_poison_body(b2, w2);
    let w3 = crate::growth::spec_poison_world(b2, w2);
    let b4 = crate::movement::spec_move_step(b3, w3, p);
    let b5 = crate::gravity::spec_gravity_step(b4, w3);
    assert(b2.segs.len() == s.body.segs.len() + (if crate::growth::spec_food_applies(
        s1.body,
        s1.world,
    ) {
        1int
    } else {
        0int
    }));
    assert(b3.segs.len() == b2.segs.len() - (if crate::growth::spec_poison_applies(b2, w2) {
        1int
    } else {
        0int
    }));
    assert(b4.segs.len() == b3.segs.len());
    assert(b5.segs.len() == b4.segs.len());
}

/// Restoring the snapshot of a state gives back exactly its segment
/// positions and orientations and its food and poison sets; only segment
/// identities and the animation queues are rebuilt afresh.
pub proof fn lemma_snapshot_restore_roundtrip(
    b: BodyView,
    w: WorldView,
    obstacles: Seq<GridPosition>,
)
    ensures
        spec_restored_body(spec_snapshot(b, w)).segs.len() == b.segs.len(),
        forall|i: int|
            0 <= i < b.segs.len() ==> #[trigger] spec_restored_body(
                spec_snapshot(b, w),
            ).segs[i].position == b.segs[i].position,
        forall|i: int|
            0 <= i < b.segs.len() ==> #[trigger] spec_restored_body(
                spec_snapshot(b, w),
            ).segs[i].orientation == b.segs[i].orientation,
        spec_restored_world(spec_snapshot(b, w), obstacles).foods == w.foods,
        spec_restored_world(spec_snapshot(b, w), obstacles).poisons == w.poisons,
        spec_restored_world(spec_snapshot(b, w), obstacles).obstacles == obstacles,
{
}

/// Applies `n` undo ticks.
pub open spec fn spec_undos(s: SimView, n: nat) -> SimView
    decreases n,
{
    if n == 0 {
        s
    } else {
        spec_undos(spec_undo_step(s).0, (n - 1) as nat)
    }
}

/// With only the bootstrap snapshot (or none at all) present, every undo is
/// a no-op: however many are applied, nothing changes.
pub proof fn lemma_undo_underflow_noop(s: SimView, n: nat)
    requires
        s.history.len() <= 1,
    ensures
        spec_undos(s, n) == s,
    decreases n,
{
    if n > 0 {
        assert(spec_undo_step(s).0 == s);
        lemma_undo_underflow_noop(s, (n - 1) as nat);
    }
}

/// Undo drains the history to the bootstrap snapshot: from any state whose
/// stack holds the bootstrap plus at least one later snapshot, any `n` of at
/// least the stack's height minus one undo ticks leave exactly the bootstrap
/// snapshot, with body, food and poison rebuilt from it; every undo beyond
/// those is a no-op.
pub proof fn lemma_undos_drain_to_bootstrap(s: SimView, n: nat)
    requires
        s.history.len() >= 2,
        n >= s.history.len() - 1,
    ensures
        spec_undos(s, n).history == seq![s.history[0]],
        spec_undos(s, n).body == spec_restored_body(s.history[0]),
        spec_undos(s, n).world == spec_restored_world(s.history[0], s.world.obstacles),
        spec_undos(s, n).won == s.won,
    decreases n,
{
    let s2 = spec_undo_step(s).0;
    assert(s2.history == s.history.drop_last());
    assert(spec_undos(s, n) == spec_undos(s2, (n - 1) as nat));
    if s.history.len() == 2 {
        assert(s2.history =~= seq![s.history[0]]);
        assert(s2.history.last() == s.history[0]);
        assert(s2.body == spec_restored_body(s.history[0]));
        assert(s2.world == spec_restored_world(s.history[0], s.world.obstacles));
        lemma_undo_underflow_noop(s2, (n - 1) as nat);
    } else {
        assert(s2.history[0] == s.history[0]);
        assert(s2.world.obstacles == s.world.obstacles);
        lemma_undos_drain_to_bootstrap(s2, (n - 1) as nat);
    }
}

/// Reset restores the bootstrap snapshot in one tick: the history is
/// truncated to its oldest entry and body, food and poison are rebuilt from
/// it.
pub proof fn lemma_reset_restores_bootstrap(s: SimView)
    requires
        s.history.len() >= 1,
    ensures
        spec_reset_step(s).0.history == seq![s.history[0]],
        spec_reset_step(s).0.body == spec_restored_body(s.history[0]),
        spec_reset_step(s).0.world == spec_restored_world(s.history[0], s.world.obstacles),
{
}

/// Applies a run of ticks, first input first.
pub open spec fn spec_run(s: SimView, inputs: Seq<TickInput>, settled: bool) -> SimView
    decreases inputs.len(),
{
    if inputs.len() == 0 {
        s
    } else {
        spec_run(spec_tick(s, inputs[0], settled).0, inputs.drop_first(), settled)
    }
}

/// Whether every input of a run goes through the pipeline, none being a
/// history command.
pub open spec fn all_pipeline_inputs(inputs: Seq<TickInput>) -> bool {
    forall|i: int| 0 <= i < inputs.len() ==> (inputs[i] is Idle || inputs[i] is Move)
}

/// A run of pipeline ticks from a fresh state bootstraps its history on the
/// first tick with a snapshot of the untouched state, and no later tick
/// touches that bootstrap entry.
pub proof fn lemma_run_keeps_bootstrap(s: SimView, inputs: Seq<TickInput>, settled: bool)
    requires
        s.history.len() == 0,
        s.body.segs.len() > 0,
        inputs.len() >= 1,
        all_pipeline_inputs(inputs),
    ensures
        spec_run(s, inputs, settled).history.len() >= 1,
        spec_run(s, inputs, settled).history[0] == spec_snapshot(s.body, s.world),
        spec_run(s, inputs, settled).world.obstacles == s.world.obstacles,
    decreases inputs.len(),
{
    let s2 = spec_tick(s, inputs[0], settled).0;
    assert(crate::sim::spec_capture_applies(s));
    assert(spec_capture_step(s).history == s.history.push(spec_snapshot(s.body, s.world)));
    assert(s2.history[0] == spec_snapshot(s.body, s.world));
    assert(s2.world.obstacles == s.world.obstacles) by {
        lemma_pipeline_keeps_obstacles(s, inputs[0], settled);
    }
    lemma_run_keeps_history_prefix(s2, inputs.drop_first(), settled);
}

/// A pipeline tick never changes the obstacle set.
pub proof fn lemma_pipeline_keeps_obstacles(s: SimView, input: TickInput, settled: bool)
    requires
        input is Idle || input is Move,
    ensures
        spec_tick(s, input, settled).0.world.obstacles == s.world.obstacles,
{
}

/// Pipeline ticks only push onto the history: every entry present stays at
/// its place, and the obstacle set is untouched.
pub proof fn lemma_run_keeps_history_prefix(s: SimView, inputs: Seq<TickInput>, settled: bool)
    requires
        all_pipeline_inputs(inputs),
    ensures
        spec_run(s, inputs, settled).history.len() >= s.history.len(),
        forall|i: int|
            0 <= i < s.history.len() ==> #[trigger] spec_run(s, inputs, settled).history[i]
                == s.history[i],
        spec_run(s, inputs, settled).world.obstacles == s.world.obstacles,
    decreases inputs.len(),
{
    if inputs.len() > 0 {
        let s2 = spec_tick(s, inputs[0], settled).0;
        assert(s2.history == spec_capture_step(s).history);
        assert(s2.history.len() >= s.history.len());
        assert(forall|i: int| 0 <= i < s.history.len() ==> #[trigger] s2.history[i] == s.history[i]);
        lemma_pipeline_keeps_obstacles(s, inputs[0], settled);
        lemma_run_keeps_history_prefix(s2, inputs.drop_first(), settled);
    }
}

/// Undo and reset restore the bootstrap exactly. From a fresh state, run any
/// pipeline ticks — moves and idles, accepted or not. Once anything was
/// captured beyond the bootstrap, as many undo ticks as the stack grew (or
/// more: the extra ones are no-ops) bring positions, orientations, food and
/// poison back, field for field, to the untouched initial state; one reset
/// tick does the same in one step.
pub proof fn theorem_undo_reset_restore_bootstrap(
    s: SimView,
    inputs: Seq<TickInput>,
    settled: bool,
    n: nat,
)
    requires
        s.history.len() == 0,
        s.body.segs.len() > 0,
        inputs.len() >= 1,
        all_pipeline_inputs(inputs),
        n >= spec_run(s, inputs, settled).history.len() - 1,
    ensures
        ({
            let t = spec_run(s, inputs, settled);
            let u = spec_undos(t, n);
            t.history.len() >= 2 ==> {
                &&& u.body.segs.len() == s.body.segs.len()
                &&& forall|i: int|
                    0 <= i < s.body.segs.len() ==> #[trigger] u.body.segs[i].position
                        == s.body.segs[i].position
                &&& forall|i: int|
                    0 <= i < s.body.segs.len() ==> #[trigger] u.body.segs[i].orientation
                        == s.body.segs[i].orientation
                &&& u.world.foods == s.world.foods
                &&& u.world.poisons == s.world.poisons
                &&& u.world.obstacles == s.world.obstacles
                &&& u.history == seq![spec_snapshot(s.body, s.world)]
                &&& spec_undo_step(u).0 == u
            }
        }),
        ({
            let t = spec_run(s, inputs, settled);
            let v = spec_reset_step(t).0;
            &&& v.body.segs.len() == s.body.segs.len()
            &&& forall|i: int|
                0 <= i < s.body.segs.len() ==> #[trigger] v.body.segs[i].position
                    == s.body.segs[i].position
            &&& forall|i: int|
                0 <= i < s.body.segs.len() ==> #[trigger] v.body.segs[i].orientation
                    == s.body.segs[i].orientation
            &&& v.world.foods == s.world.foods
            &&& v.world.poisons == s.world.poisons
            &&& v.history == seq![spec_snapshot(s.body, s.world)]
        }),
{
    let t = spec_run(s, inputs, settled);
    lemma_run_keeps_bootstrap(s, inputs, settled);
    lemma_snapshot_restore_roundtrip(s.body, s.world, t.world.obstacles);
    if t.history.len() >= 2 {
        lemma_undos_drain_to_bootstrap(t, n);
        let u = spec_undos(t, n);
        assert(u.body == spec_restored_body(spec_snapshot(s.body, s.world)));
        assert(u.world == spec_restored_world(
            spec_snapshot(s.body, s.world),
            t.world.obstacles,
        ));
    }
    lemma_reset_restores_bootstrap(t);
    let v = spec_reset_step(t).0;
    assert(v.body == spec_restored_body(spec_snapshot(s.body, s.world)));
    assert(v.world == spec_restored_world(spec_snapshot(s.body, s.world), t.world.obstacles));
}

} // verus!
