//! The whole simulation: one state value and one tick function running the
//! fixed pipeline — history capture, food, poison, movement, gravity, win
//! check — with undo and reset commands pre-empting the pipeline for their
//! tick.

use vstd::prelude::*;

use crate::body::BodyView;
use crate::body::SnakeBody;
use crate::gravity::apply_gravity;
use crate::gravity::spec_fall_shift;
use crate::gravity::spec_gravity_step;
use crate::gravity::GRAVITY_SCAN_LIMIT;
use crate::grid::DirectionPresses;
use crate::grid::GridWorld;
use crate::growth::apply_food;
use crate::growth::apply_poison;
use crate::growth::spec_food_applies;
use crate::growth::spec_food_body;
use crate::growth::spec_food_world;
use crate::growth::spec_poison_applies;
use crate::growth::spec_poison_body;
use crate::growth::spec_poison_world;
use crate::history::capture;
use crate::history::restore_body;
use crate::history::restore_world;
use crate::history::spec_restored_body;
use crate::history::spec_restored_world;
use crate::history::spec_snapshot;
use crate::history::Snapshot;
use crate::history::SnapshotView;
use crate::movement::spec_move_applies;
use crate::movement::spec_move_blocked;
use crate::movement::spec_move_step;
use crate::movement::spec_no_intent;
use crate::movement::step_move;
use crate::win::spec_win;
use crate::win::win_check;

verus! {

/// What one tick is told from outside: nothing, the directional presses of a
/// movement intent, or one of the two history commands. A history command is
/// mutually exclusive with a movement intent in its tick and skips growth,
/// movement and gravity.
#[derive(Clone, Copy, Debug, PartialEq, Eq, Structural)]
pub enum TickInput {
    Idle,
    Move(DirectionPresses),
    Undo,
    Reset,
}

/// What one tick reports back: which pipeline phases did something, the
/// gravity shift applied, and the win flag.
#[derive(Clone, Copy, Debug, PartialEq, Eq, Structural)]
pub struct TickReport {
    /// A snapshot was pushed this tick.
    pub captured: bool,
    /// The head stood on a food cell; the body grew.
    pub ate_food: bool,
    /// The head stood on a poison cell; the body shrank.
    pub ate_poison: bool,
    /// A movement intent was accepted and committed.
    pub moved: bool,
    /// A movement intent was rejected by the blocked set.
    pub blocked: bool,
    /// How far the body fell.
    pub fall: u32,
    /// An undo popped a snapshot and restored the one below it.
    pub undone: bool,
    /// A reset truncated the history to the bootstrap snapshot and restored it.
    pub was_reset: bool,
    /// The win flag after this tick.
    pub won: bool,
}

/// The full simulation state of one level in play.
#[derive(Clone, Debug)]
pub struct SimState {
    pub body: SnakeBody,
    pub world: GridWorld,
    pub history: Vec<Snapshot>,
    pub won: bool,
}

/// The mathematical content of a `SimState`.
pub ghost struct SimView {
    pub body: BodyView,
    pub world: crate::grid::WorldView,
    pub history: Seq<SnapshotView>,
    pub won: bool,
}

impl View for SimState {
    type V = SimView;

    open spec fn view(&self) -> SimView {
        SimView {
            body: self.body@,
            world: self.world@,
            history: Seq::new(self.history@.len(), |i: int| self.history@[i]@),
            won: self.won,
        }
    }
}

impl SimView {
    /// The standing invariants: unique segment ids below the fresh-id
    /// counter, distinct cells in each occupancy index, and snapshots that
    /// were taken from such states — never of an empty body, since captures
    /// only happen while a head exists, and with distinct food and poison
    /// cells, since captures copy the world's own indices.
    pub open spec fn wf(self) -> bool {
        &&& self.body.wf()
        &&& self.world.wf()
        &&& forall|i: int|
            0 <= i < self.history.len() ==> {
                &&& (#[trigger] self.history[i]).segs.len() > 0
                &&& crate::grid::distinct_positions(self.history[i].foods)
                &&& crate::grid::distinct_positions(self.history[i].poisons)
            }
    }
}

/// The coordinate band within which one tick's motion cannot leave the
/// machine range of `i32`: a move shifts a coordinate by at most one, and
/// gravity probes and lowers `y` by at most the scan limit.
pub open spec fn spec_tick_bounds(b: BodyView) -> bool {
    forall|i: int|
        0 <= i < b.segs.len() ==> {
            &&& i32::MIN + 1 <= (#[trigger] b.segs[i]).position.x <= i32::MAX - 1
            &&& i32::MIN + 1 + GRAVITY_SCAN_LIMIT <= b.segs[i].position.y <= i32::MAX - 1
        }
}

/// Whether this tick pushes a snapshot: there is a body to capture, and its
/// head is not where the top snapshot left it (a fresh history bootstraps).
pub open spec fn spec_capture_applies(s: SimView) -> bool {
    s.body.segs.len() > 0 && (s.history.len() == 0 || s.history.last().segs[0].position
        != s.body.segs[0].position)
}

/// The state after the capture phase.
pub open spec fn spec_capture_step(s: SimView) -> SimView {
    if spec_capture_applies(s) {
        SimView {
            body: s.body,
            world: s.world,
            history: s.history.push(spec_snapshot(s.body, s.world)),
            won: s.won,
        }
    } else {
        s
    }
}

/// The presses a tick input carries; a tick without a movement intent moves
/// by the zero delta.
pub open spec fn spec_presses_of(input: TickInput) -> DirectionPresses {
    match input {
        TickInput::Move(p) => p,
        _ => DirectionPresses { left: false, right: false, down: false, up: false },
    }
}

/// One full pipeline tick: capture, food, poison, movement, gravity, win.
pub open spec fn spec_pipeline(s: SimView, p: DirectionPresses, settled: bool) -> (SimView,
    TickReport,
) {
    let s1 = spec_capture_step(s);
    let ate_food = spec_food_applies(s1.body, s1.world);
    let b2 = spec_food_body(s1.body, s1.world);
    let w2 = spec_food_world(s1.body, s1.world);
    let ate_poison = spec_poison_applies(b2, w2);
    let b3 = spec_poison_body(b2, w2);
    let w3 = spec_poison_world(b2, w2);
    let b4 = spec_move_step(b3, w3, p);
    let shift = spec_fall_shift(b4, w3);
    let b5 = spec_gravity_step(b4, w3);
    let won = s.won || spec_win(b5, settled);
    (
        SimView { body: b5, world: w3, history: s1.history, won: won },
        TickReport {
            captured: spec_capture_applies(s),
            ate_food: ate_food,
            ate_poison: ate_poison,
            moved: spec_move_applies(b3, w3, p),
            blocked: spec_move_blocked(b3, w3, p),
            fall: shift as u32,
            undone: false,
            was_reset: false,
            won: won,
        },
    )
}

/// An undo tick: unless only the bootstrap snapshot remains, pop the top
/// snapshot and rebuild body, food and poison from the new top.
pub open spec fn spec_undo_step(s: SimView) -> (SimView, TickReport) {
    if s.history.len() > 1 {
        let h2 = s.history.drop_last();
        let top = h2.last();
        (
            SimView {
                body: spec_restored_body(top),
                world: spec_restored_world(top, s.world.obstacles),
                history: h2,
                won: s.won,
            },
            TickReport {
                captured: false,
                ate_food: false,
                ate_poison: false,
                moved: false,
                blocked: false,
                fall: 0,
                undone: true,
                was_reset: false,
                won: s.won,
            },
        )
    } else {
        (
            s,
            TickReport {
                captured: false,
                ate_food: false,
                ate_poison: false,
                moved: false,
                blocked: false,
                fall: 0,
                undone: false,
                was_reset: false,
                won: s.won,
            },
        )
    }
}

/// A reset tick: truncate the history to its oldest, bootstrap snapshot and
/// rebuild from it; with no snapshot yet there is nothing to restore.
pub open spec fn spec_reset_step(s: SimView) -> (SimView, TickReport) {
    if s.history.len() >= 1 {
        let top = s.history[0];
        (
            SimView {
                body: spec_restored_body(top),
                world: spec_restored_world(top, s.world.obstacles),
                history: seq![s.history[0]],
                won: s.won,
            },
            TickReport {
                captured: false,
                ate_food: false,
                ate_poison: false,
                moved: false,
                blocked: false,
                fall: 0,
                undone: false,
                was_reset: true,
                won: s.won,
            },
        )
    } else {
        (
            s,
            TickReport {
                captured: false,
                ate_food: false,
                ate_poison: false,
                moved: false,
                blocked: false,
                fall: 0,
                undone: false,
                was_reset: false,
                won: s.won,
            },
        )
    }
}

/// What one tick does to the whole state, and what it reports.
pub open spec fn spec_tick(s: SimView, input: TickInput, settled: bool) -> (SimView, TickReport) {
    match input {
        TickInput::Undo => spec_undo_step(s),
        TickInput::Reset => spec_reset_step(s),
        TickInput::Idle => spec_pipeline(s, spec_presses_of(input), settled),
        TickInput::Move(p) => spec_pipeline(s, p, settled),
    }
}

impl SimState {
    /// Runs one tick of the simulation on `input` and the externally
    /// supplied settled signal, and reports what happened.
    pub fn tick(&mut self, input: TickInput, settled: bool) -> (r: TickReport)
        requires
            old(self)@.wf(),
            spec_tick_bounds(old(self)@.body),
            old(self)@.body.next_id < u64::MAX,
        ensures
            final(self)@ == spec_tick(old(self)@, input, settled).0,
            r == spec_tick(old(self)@, input, settled).1,
            final(self)@.wf(),
    {
        let ghost s0 = self@;
        match input {
            TickInput::Undo => self.do_undo(),
            TickInput::Reset => self.do_reset(),
            TickInput::Idle => self.do_pipeline(
                DirectionPresses { left: false, right: false, down: false, up: false },
                settled,
            ),
            TickInput::Move(p) => self.do_pipeline(p, settled),
        }
    }

    /// Performs one undo as a command of its own, reporting the underflow
    /// that a tick silently ignores: with only the bootstrap snapshot (or
    /// none) present, nothing changes and `UndoUnderflow` comes back.
    pub fn undo(&mut self) -> (r: Result<(), crate::grid::SimError>)
        requires
            old(self)@.wf(),
        ensures
            final(self)@ == spec_undo_step(old(self)@).0,
            final(self)@.wf(),
            old(self)@.history.len() > 1 ==> r == Ok::<(), crate::grid::SimError>(()),
            old(self)@.history.len() <= 1 ==> r == Err::<(), crate::grid::SimError>(
                crate::grid::SimError::UndoUnderflow,
            ),
    {
        let underflow = self.history.len() <= 1;
        let _report = self.do_undo();
        if underflow {
            Err(crate::grid::SimError::UndoUnderflow)
        } else {
            Ok(())
        }
    }

    fn do_undo(&mut self) -> (r: TickReport)
        requires
            old(self)@.wf(),
        ensures
            final(self)@ == spec_undo_step(old(self)@).0,
            r == spec_undo_step(old(self)@).1,
            final(self)@.wf(),
    {
        let ghost s0 = self@;
        if self.history.len() <= 1 {
            return TickReport {
                captured: false,
                ate_food: false,
                ate_poison: false,
                moved: false,
                blocked: false,
                fall: 0,
                undone: false,
                was_reset: false,
                won: self.won,
            };
        }
        self.history.pop();
        let idx = self.history.len() - 1;
        let n = self.history[idx].segs.len();
        assert(self.history@[idx as int]@.segs.len() == n <= u64::MAX);
        let b = restore_body(&self.history[idx]);
        self.body = b;
        restore_world(&self.history[idx], &mut self.world);
        proof {
            assert(self@.history =~= s0.history.drop_last());
            assert(s0.history.drop_last().last() == self.history@[idx as int]@);
            lemma_restored_wf(s0.history.drop_last().last());
        }
        TickReport {
            captured: false,
            ate_food: false,
            ate_poison: false,
            moved: false,
            blocked: false,
            fall: 0,
            undone: true,
            was_reset: false,
            won: self.won,
        }
    }

    fn do_reset(&mut self) -> (r: TickReport)
        requires
            old(self)@.wf(),
        ensures
            final(self)@ == spec_reset_step(old(self)@).0,
            r == spec_reset_step(old(self)@).1,
            final(self)@.wf(),
    {
        let ghost s0 = self@;
        if self.history.len() == 0 {
            return TickReport {
                captured: false,
                ate_food: false,
                ate_poison: false,
                moved: false,
                blocked: false,
                fall: 0,
                undone: false,
                was_reset: false,
                won: self.won,
            };
        }
        self.history.truncate(1);
        let n = self.history[0].segs.len();
        assert(self.history@[0int]@.segs.len() == n <= u64::MAX);
        let b = restore_body(&self.history[0]);
        self.body = b;
        restore_world(&self.history[0], &mut self.world);
        proof {
            assert(self@.history =~= seq![s0.history[0]]);
            assert(s0.history[0] == self.history@[0]@);
            lemma_restored_wf(s0.history[0]);
        }
        TickReport {
            captured: false,
            ate_food: false,
            ate_poison: false,
            moved: false,
            blocked: false,
            fall: 0,
            undone: false,
            was_reset: true,
            won: self.won,
        }
    }

    fn do_pipeline(&mut self, p: DirectionPresses, settled: bool) -> (r: TickReport)
        requires
            old(self)@.wf(),
            spec_tick_bounds(old(self)@.body),
            old(self)@.body.next_id < u64::MAX,
        ensures
            final(self)@ == spec_pipeline(old(self)@, p, settled).0,
            r == spec_pipeline(old(self)@, p, settled).1,
            final(self)@.wf(),
    {
        let ghost s0 = self@;

        // History capture: compare the head against the top snapshot.
        let do_capture = if self.body.segments.len() == 0 {
            false
        } else if self.history.len() == 0 {
            true
        } else {
            let top = &self.history[self.history.len() - 1];
            assert(top@ == s0.history.last());
            assert(top@.segs.len() > 0);
            let top_head = top.segs[0];
            let head = self.body.segments[0].position;
            !(top_head.position.x == head.x && top_head.position.y == head.y)
        };
        assert(do_capture == spec_capture_applies(s0));
        if do_capture {
            let snap = capture(&self.body, &self.world);
            self.history.push(snap);
            assert(self@.history =~= s0.history.push(spec_snapshot(s0.body, s0.world)));
        }
        let ghost s1 = spec_capture_step(s0);
        assert(self@.body == s1.body && self@.world == s1.world && self@.history == s1.history);

        // Growth: food, then poison.
        let ate_food = apply_food(&mut self.body, &mut self.world);
        let ghost b2 = self.body@;
        let ghost w2 = self.world@;
        let ate_poison = apply_poison(&mut self.body, &mut self.world);
        let ghost b3 = self.body@;
        let ghost w3 = self.world@;

        proof {
            lemma_food_bounds(s1.body, s1.world);
            lemma_poison_bounds(b2, w2);
            lemma_food_wf(s1.body, s1.world);
            lemma_poison_wf(b2, w2);
        }

        // Movement.
        let move_result = step_move(&mut self.body, &self.world, p);
        let ghost b4 = self.body@;
        proof {
            lemma_move_bounds(b3, w3, p);
            lemma_move_wf(b3, w3, p);
        }

        // Gravity.
        let shift = apply_gravity(&mut self.body, &self.world);
        proof {
            lemma_gravity_wf(b4, w3);
        }

        // Win check, latched.
        let won_now = win_check(&self.body, settled);
        self.won = self.won || won_now;

        proof {
            crate::gravity::lemma_min_fall_le(w3.obstacles, b4.segs);
        }
        TickReport {
            captured: do_capture,
            ate_food: ate_food,
            ate_poison: ate_poison,
            moved: match move_result {
                Ok(b) => b,
                Err(_) => false,
            },
            blocked: match move_result {
                Ok(_) => false,
                Err(_) => true,
            },
            fall: shift,
            undone: false,
            was_reset: false,
            won: self.won,
        }
    }
}

/// A restored body is well formed: its ids are exactly 0 through its length.
pub proof fn lemma_restored_wf(s: SnapshotView)
    requires
        s.segs.len() <= u64::MAX,
    ensures
        spec_restored_body(s).wf(),
{
}

/// Food preserves the coordinate band: the new segment takes the tail's
/// cell.
pub proof fn lemma_food_bounds(b: BodyView, w: crate::grid::WorldView)
    requires
        spec_tick_bounds(b),
    ensures
        spec_tick_bounds(spec_food_body(b, w)),
{
    if spec_food_applies(b, w) {
        let idx = crate::growth::spec_insertion_index(b.segs.len() as int);
        let segs2 = spec_food_body(b, w).segs;
        assert forall|i: int| 0 <= i < segs2.len() implies {
            &&& i32::MIN + 1 <= (#[trigger] segs2[i]).position.x <= i32::MAX - 1
            &&& i32::MIN + 1 + GRAVITY_SCAN_LIMIT <= segs2[i].position.y <= i32::MAX - 1
        } by {
            b.segs.insert_ensures(idx, crate::growth::spec_food_segment(b.segs, b.next_id));
            if i < idx {
                assert(segs2[i] == b.segs[i]);
            } else if i == idx {
                assert(segs2[i] == crate::growth::spec_food_segment(b.segs, b.next_id));
                assert(segs2[i].position == b.segs[b.segs.len() - 1].position);
            } else {
                assert(segs2[i] == b.segs[i - 1]);
            }
        }
    }
}

/// Poison preserves the coordinate band: the tail takes the removed
/// segment's cell.
pub proof fn lemma_poison_bounds(b: BodyView, w: crate::grid::WorldView)
    requires
        spec_tick_bounds(b),
    ensures
        spec_tick_bounds(spec_poison_body(b, w)),
{
    if spec_poison_applies(b, w) {
        let ridx = crate::growth::spec_removal_index(b.segs.len() as int);
        let segs2 = spec_poison_body(b, w).segs;
        assert forall|i: int| 0 <= i < segs2.len() implies {
            &&& i32::MIN + 1 <= (#[trigger] segs2[i]).position.x <= i32::MAX - 1
            &&& i32::MIN + 1 + GRAVITY_SCAN_LIMIT <= segs2[i].position.y <= i32::MAX - 1
        } by {
            b.segs.remove_ensures(ridx);
            let rest = b.segs.remove(ridx);
            if i < ridx {
                assert(rest[i] == b.segs[i]);
            } else {
                assert(rest[i] == b.segs[i + 1]);
            }
            if rest.len() > 1 && i == rest.len() - 1 {
                assert(segs2[i].position == b.segs[ridx].position);
            } else {
                assert(segs2[i] == rest[i]);
            }
        }
    }
}

/// A committed move keeps every coordinate within `i32`: trailing segments
/// take existing cells and the head moves one step inside the band.
pub proof fn lemma_move_bounds(b: BodyView, w: crate::grid::WorldView, p: DirectionPresses)
    requires
        spec_tick_bounds(b),
    ensures
        !spec_no_intent(b, p) ==> {
            &&& i32::MIN <= crate::movement::spec_proposed_x(b, p) <= i32::MAX
            &&& i32::MIN <= crate::movement::spec_proposed_y(b, p) <= i32::MAX
        },
        forall|i: int|
            0 <= i < spec_move_step(b, w, p).segs.len()
                ==> (#[trigger] spec_move_step(b, w, p).segs[i]).position.y - GRAVITY_SCAN_LIMIT
                >= i32::MIN,
{
    let b4 = spec_move_step(b, w, p);
    assert forall|i: int| 0 <= i < b4.segs.len() implies (#[trigger] b4.segs[i]).position.y
        - GRAVITY_SCAN_LIMIT >= i32::MIN by {
        if spec_move_applies(b, w, p) {
            assert(b4.segs[i] == crate::movement::spec_moved_seg(b.segs, p, i));
        }
    }
}

/// Food preserves well-formedness: the new segment takes the fresh id.
pub proof fn lemma_food_wf(b: BodyView, w: crate::grid::WorldView)
    requires
        b.wf(),
        b.next_id < u64::MAX,
    ensures
        spec_food_body(b, w).wf(),
        spec_food_body(b, w).next_id <= b.next_id + 1,
{
    if spec_food_applies(b, w) {
        let idx = crate::growth::spec_insertion_index(b.segs.len() as int);
        let newseg = crate::growth::spec_food_segment(b.segs, b.next_id);
        let segs2 = spec_food_body(b, w).segs;
        b.segs.insert_ensures(idx, newseg);
        assert forall|i: int, j: int| 0 <= i < j < segs2.len() implies segs2[i].id
            != segs2[j].id by {
            assert(segs2[i] == if i < idx {
                b.segs[i]
            } else if i == idx {
                newseg
            } else {
                b.segs[i - 1]
            });
            assert(segs2[j] == if j < idx {
                b.segs[j]
            } else if j == idx {
                newseg
            } else {
                b.segs[j - 1]
            });
        }
        assert forall|i: int| 0 <= i < segs2.len() implies segs2[i].id < spec_food_body(
            b,
            w,
        ).next_id by {
            assert(segs2[i] == if i < idx {
                b.segs[i]
            } else if i == idx {
                newseg
            } else {
                b.segs[i - 1]
            });
        }
    }
}

/// Poison preserves well-formedness: ids only disappear.
pub proof fn lemma_poison_wf(b: BodyView, w: crate::grid::WorldView)
    requires
        b.wf(),
    ensures
        spec_poison_body(b, w).wf(),
        spec_poison_body(b, w).next_id == b.next_id,
{
    if spec_poison_applies(b, w) {
        let ridx = crate::growth::spec_removal_index(b.segs.len() as int);
        let segs2 = spec_poison_body(b, w).segs;
        let rest = b.segs.remove(ridx);
        b.segs.remove_ensures(ridx);
        assert forall|i: int| 0 <= i < rest.len() implies rest[i] == b.segs[if i < ridx {
            i
        } else {
            i + 1
        }] by {}
        assert forall|i: int, j: int| 0 <= i < j < segs2.len() implies segs2[i].id
            != segs2[j].id by {
            assert(segs2[i].id == rest[i].id);
            assert(segs2[j].id == rest[j].id);
        }
        assert forall|i: int| 0 <= i < segs2.len() implies segs2[i].id < b.next_id by {
            assert(segs2[i].id == rest[i].id);
        }
    }
}

/// Movement preserves well-formedness: every id is kept in place.
pub proof fn lemma_move_wf(b: BodyView, w: crate::grid::WorldView, p: DirectionPresses)
    requires
        b.wf(),
    ensures
        spec_move_step(b, w, p).wf(),
        spec_move_step(b, w, p).next_id == b.next_id,
{
    let b4 = spec_move_step(b, w, p);
    if spec_move_applies(b, w, p) {
        assert forall|i: int| 0 <= i < b4.segs.len() implies (#[trigger] b4.segs[i]).id
            == b.segs[i].id by {
            assert(b4.segs[i] == crate::movement::spec_moved_seg(b.segs, p, i));
        }
    }
}

/// Gravity preserves well-formedness: ids and order are untouched.
pub proof fn lemma_gravity_wf(b: BodyView, w: crate::grid::WorldView)
    requires
        b.wf(),
    ensures
        spec_gravity_step(b, w).wf(),
        spec_gravity_step(b, w).next_id == b.next_id,
{
    let b5 = spec_gravity_step(b, w);
    assert forall|i: int| 0 <= i < b5.segs.len() implies (#[trigger] b5.segs[i]).id
        == b.segs[i].id by {
        if spec_fall_shift(b, w) != 0 {
            assert(b5.segs[i] == crate::gravity::spec_fallen_seg(
                b.segs[i],
                spec_fall_shift(b, w),
            ));
        }
    }
}

} // verus!
