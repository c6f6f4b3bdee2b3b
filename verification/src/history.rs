//! The history stack: full-state snapshots taken at settled ticks, popped by
//! undo and truncated by reset, each restore a destructive rebuild.

use vstd::prelude::*;

use crate::body::BodyView;
use crate::body::Segment;
use crate::body::SegmentView;
use crate::body::SnakeBody;
use crate::grid::Direction;
use crate::grid::GridPosition;
use crate::grid::GridWorld;
use crate::grid::Orientation;
use crate::grid::Transition;
use crate::grid::WorldView;
use crate::grid::TRANSITION_FRAME_MAX;

verus! {

/// One segment as a snapshot keeps it: its position, its orientation, and
/// its last transition normalized to fully settled.
#[derive(Clone, Copy, Debug, PartialEq, Eq, Structural, Hash)]
pub struct SnapSeg {
    pub position: GridPosition,
    pub orientation: Orientation,
    pub transition: Transition,
}

/// An immutable capture of the whole simulation state at a settled tick:
/// every segment in body order, and the food and poison sets.
#[derive(Clone, Debug)]
pub struct Snapshot {
    pub segs: Vec<SnapSeg>,
    pub foods: Vec<GridPosition>,
    pub poisons: Vec<GridPosition>,
}

/// The mathematical content of a `Snapshot`.
pub ghost struct SnapshotView {
    pub segs: Seq<SnapSeg>,
    pub foods: Seq<GridPosition>,
    pub poisons: Seq<GridPosition>,
}

impl View for Snapshot {
    type V = SnapshotView;

    open spec fn view(&self) -> SnapshotView {
        SnapshotView { segs: self.segs@, foods: self.foods@, poisons: self.poisons@ }
    }
}

/// The transition a snapshot keeps for a segment: its last queued one,
/// forced to the final frame; a segment with an empty queue gets a settled
/// straight run as a placeholder, so a restore always has a consistent last
/// transition to replay.
pub open spec fn spec_snap_transition(s: SegmentView) -> Transition {
    if s.transitions.len() > 0 {
        Transition {
            from: s.transitions.last().from,
            to: s.transitions.last().to,
            frame: TRANSITION_FRAME_MAX,
        }
    } else {
        Transition {
            from: Orientation { from: Direction::Left, to: Direction::Right },
            to: Orientation { from: Direction::Left, to: Direction::Right },
            frame: TRANSITION_FRAME_MAX,
        }
    }
}

/// What capturing the current state yields.
pub open spec fn spec_snapshot(b: BodyView, w: WorldView) -> SnapshotView {
    SnapshotView {
        segs: Seq::new(
            b.segs.len(),
            |i: int|
                SnapSeg {
                    position: b.segs[i].position,
                    orientation: b.segs[i].orientation,
                    transition: spec_snap_transition(b.segs[i]),
                },
        ),
        foods: w.foods,
        poisons: w.poisons,
    }
}

/// The body a snapshot restores: every segment destroyed and recreated, with
/// fresh sequential ids, the captured position and orientation, the captured
/// transition as the sole queued one, and no pending positions.
pub open spec fn spec_restored_body(s: SnapshotView) -> BodyView {
    BodyView {
        segs: Seq::new(
            s.segs.len(),
            |i: int|
                SegmentView {
                    id: i as u64,
                    position: s.segs[i].position,
                    orientation: s.segs[i].orientation,
                    transitions: seq![s.segs[i].transition],
                    pending: Seq::empty(),
                },
        ),
        next_id: s.segs.len() as u64,
    }
}

/// The world a snapshot restores, on the unchanged obstacle set.
pub open spec fn spec_restored_world(s: SnapshotView, obstacles: Seq<GridPosition>) -> WorldView {
    WorldView { obstacles: obstacles, foods: s.foods, poisons: s.poisons }
}

/// Copies a position vector.
fn copy_positions(v: &Vec<GridPosition>) -> (r: Vec<GridPosition>)
    ensures
        r@ == v@,
{
    let mut r: Vec<GridPosition> = Vec::new();
    let mut i: usize = 0;
    while i < v.len()
        invariant
            0 <= i <= v@.len(),
            r@ == v@.subrange(0, i as int),
        decreases v@.len() - i,
    {
        r.push(v[i]);
        assert(r@ =~= v@.subrange(0, i as int + 1));
        i = i + 1;
    }
    assert(r@ =~= v@);
    r
}

/// Captures the current body and the food and poison sets as a snapshot.
pub fn capture(body: &SnakeBody, world: &GridWorld) -> (s: Snapshot)
    ensures
        s@ == spec_snapshot(body@, world@),
{
    let ghost target = spec_snapshot(body@, world@);
    let mut segs: Vec<SnapSeg> = Vec::new();
    let len = body.segments.len();
    let mut i: usize = 0;
    while i < len
        invariant
            0 <= i <= len,
            len == body@.segs.len(),
            forall|j: int| 0 <= j < body@.segs.len() ==> body@.segs[j] == body.segments@[j]@,
            target == spec_snapshot(body@, world@),
            segs@.len() == i,
            forall|j: int| 0 <= j < i ==> segs@[j] == target.segs[j],
        decreases len - i,
    {
        let seg = &body.segments[i];
        let t = if seg.transitions.len() > 0 {
            let last = seg.transitions[seg.transitions.len() - 1];
            Transition { from: last.from, to: last.to, frame: TRANSITION_FRAME_MAX }
        } else {
            Transition {
                from: Orientation { from: Direction::Left, to: Direction::Right },
                to: Orientation { from: Direction::Left, to: Direction::Right },
                frame: TRANSITION_FRAME_MAX,
            }
        };
        segs.push(SnapSeg { position: seg.position, orientation: seg.orientation, transition: t });
        i = i + 1;
    }
    let s = Snapshot {
        segs: segs,
        foods: copy_positions(&world.foods),
        poisons: copy_positions(&world.poisons),
    };
    assert(s@.segs =~= target.segs);
    s
}

/// Rebuilds a body from a snapshot: every segment destroyed and recreated.
pub fn restore_body(s: &Snapshot) -> (b: SnakeBody)
    requires
        s@.segs.len() <= u64::MAX,
    ensures
        b@ == spec_restored_body(s@),
{
    let ghost target = spec_restored_body(s@);
    let mut segments: Vec<Segment> = Vec::new();
    let len = s.segs.len();
    let mut i: usize = 0;
    while i < len
        invariant
            0 <= i <= len,
            len == s@.segs.len() <= u64::MAX,
            target == spec_restored_body(s@),
            segments@.len() == i,
            forall|j: int| 0 <= j < i ==> segments@[j]@ == target.segs[j],
        decreases len - i,
    {
        let snap = s.segs[i];
        let mut transitions: Vec<Transition> = Vec::new();
        transitions.push(snap.transition);
        let seg = Segment {
            id: i as u64,
            position: snap.position,
            orientation: snap.orientation,
            transitions: transitions,
            pending: Vec::new(),
        };
        assert(seg@.transitions =~= seq![snap.transition]);
        assert(seg@.pending =~= Seq::<GridPosition>::empty());
        assert(seg@ == target.segs[i as int]);
        segments.push(seg);
        i = i + 1;
    }
    let b = SnakeBody { segments: segments, next_id: len as u64 };
    assert(b@.segs =~= target.segs);
    b
}

/// Restores the food and poison sets of a snapshot into the world, leaving
/// the obstacles as they are.
pub fn restore_world(s: &Snapshot, world: &mut GridWorld)
    ensures
        final(world)@ == spec_restored_world(s@, old(world)@.obstacles),
{
    world.foods = copy_positions(&s.foods);
    world.poisons = copy_positions(&s.poisons);
}

} // verus!
