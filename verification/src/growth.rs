//! The growth engine: splices a new segment in when the head reaches food,
//! removes one when it reaches poison.

use vstd::prelude::*;

use crate::body::BodyView;
use crate::body::Segment;
use crate::body::SegmentView;
use crate::body::SnakeBody;
use crate::grid::remove_position;
use crate::grid::vec_contains_position;
use crate::grid::GridWorld;
use crate::grid::Transition;
use crate::grid::WorldView;
use vstd::pervasive::VecAdditionalExecFns;

verus! {

/// Whether this tick consumes a food item: the head stands on one.
pub open spec fn spec_food_applies(b: BodyView, w: WorldView) -> bool {
    b.segs.len() > 0 && w.foods.contains(b.segs[0].position)
}

/// The new segment food splices in: it appears exactly where the tail will
/// vacate, with the tail's current position and orientation, an empty
/// transition queue, and one pending target position so the consumer
/// animates it arriving.
pub open spec fn spec_food_segment(segs: Seq<SegmentView>, id: u64) -> SegmentView
    recommends
        segs.len() > 0,
{
    let tail = segs[segs.len() - 1];
    SegmentView {
        id: id,
        position: tail.position,
        orientation: tail.orientation,
        transitions: Seq::empty(),
        pending: seq![tail.position],
    }
}

/// Where food splices the new segment in: immediately before the current
/// tail, except that a body of length exactly 1 grows at index 1, right
/// after the sole existing segment, which stays head.
pub open spec fn spec_insertion_index(len: int) -> int {
    if len == 1 {
        1
    } else {
        len - 1
    }
}

/// The body after the food phase.
pub open spec fn spec_food_body(b: BodyView, w: WorldView) -> BodyView {
    if spec_food_applies(b, w) {
        BodyView {
            segs: b.segs.insert(
                spec_insertion_index(b.segs.len() as int),
                spec_food_segment(b.segs, b.next_id),
            ),
            next_id: (b.next_id + 1) as u64,
        }
    } else {
        b
    }
}

/// The world after the food phase: the consumed food is gone.
pub open spec fn spec_food_world(b: BodyView, w: WorldView) -> WorldView {
    if spec_food_applies(b, w) {
        WorldView {
            obstacles: w.obstacles,
            foods: w.foods.remove(w.foods.index_of(b.segs[0].position)),
            poisons: w.poisons,
        }
    } else {
        w
    }
}

/// When the head stands on a food cell, removes that food and splices a new
/// segment in at the tail's current position and orientation. Returns
/// whether food was consumed.
pub fn apply_food(body: &mut SnakeBody, world: &mut GridWorld) -> (ate: bool)
    requires
        old(world)@.wf(),
        old(body)@.next_id < u64::MAX,
    ensures
        ate == spec_food_applies(old(body)@, old(world)@),
        final(body)@ == spec_food_body(old(body)@, old(world)@),
        final(world)@ == spec_food_world(old(body)@, old(world)@),
        final(world)@.wf(),
        final(world)@.obstacles == old(world)@.obstacles,
        final(world)@.poisons == old(world)@.poisons,
{
    let ghost b0 = body@;
    let ghost w0 = world@;
    if body.segments.len() == 0 {
        return false;
    }
    let head = body.segments[0].position;
    if !vec_contains_position(&world.foods, head) {
        return false;
    }
    remove_position(&mut world.foods, head);
    let len = body.segments.len();
    let tail_pos = body.segments[len - 1].position;
    let tail_orient = body.segments[len - 1].orientation;
    let mut pending = Vec::new();
    pending.push(tail_pos);
    let new_seg = Segment {
        id: body.next_id,
        position: tail_pos,
        orientation: tail_orient,
        transitions: Vec::new(),
        pending: pending,
    };
    assert(new_seg@ == spec_food_segment(b0.segs, b0.next_id)) by {
        assert(new_seg@.pending =~= seq![tail_pos]);
        assert(new_seg@.transitions =~= Seq::<Transition>::empty());
    }
    let idx = if len == 1 {
        1
    } else {
        len - 1
    };
    body.segments.insert(idx, new_seg);
    body.next_id = body.next_id + 1;
    assert(body@.segs =~= b0.segs.insert(
        spec_insertion_index(b0.segs.len() as int),
        spec_food_segment(b0.segs, b0.next_id),
    ));
    true
}

/// Whether this tick consumes a poison item: the head stands on one.
pub open spec fn spec_poison_applies(b: BodyView, w: WorldView) -> bool {
    b.segs.len() > 0 && w.poisons.contains(b.segs[0].position)
}

/// Which segment poison removes: the sole segment at length 1 (the body is
/// emptied, the degenerate case), the tail at length 2, and the
/// second-to-last segment at length 3 and more.
pub open spec fn spec_removal_index(len: int) -> int {
    if len == 1 {
        0
    } else if len == 2 {
        1
    } else {
        len - 2
    }
}

/// The body after the poison phase: the removed segment's position and
/// orientation, captured before deletion, are assigned to the remaining
/// tail, which also queues the change so it animates.
pub open spec fn spec_poison_body(b: BodyView, w: WorldView) -> BodyView {
    if spec_poison_applies(b, w) {
        let ridx = spec_removal_index(b.segs.len() as int);
        let removed = b.segs[ridx];
        let rest = b.segs.remove(ridx);
        let segs = if rest.len() > 1 {
            let last = rest.len() - 1;
            let t = rest[last];
            rest.update(
                last,
                SegmentView {
                    id: t.id,
                    position: removed.position,
                    orientation: removed.orientation,
                    transitions: t.transitions.push(
                        Transition { from: t.orientation, to: removed.orientation, frame: 0 },
                    ),
                    pending: t.pending.push(removed.position),
                },
            )
        } else {
            rest
        };
        BodyView { segs: segs, next_id: b.next_id }
    } else {
        b
    }
}

/// The world after the poison phase: the consumed poison is gone.
pub open spec fn spec_poison_world(b: BodyView, w: WorldView) -> WorldView {
    if spec_poison_applies(b, w) {
        WorldView {
            obstacles: w.obstacles,
            foods: w.foods,
            poisons: w.poisons.remove(w.poisons.index_of(b.segs[0].position)),
        }
    } else {
        w
    }
}

/// When the head stands on a poison cell, removes that poison and the
/// removal-rule segment, handing the removed segment's position and
/// orientation to the new tail. Returns whether poison was consumed.
pub fn apply_poison(body: &mut SnakeBody, world: &mut GridWorld) -> (ate: bool)
    requires
        old(world)@.wf(),
    ensures
        ate == spec_poison_applies(old(body)@, old(world)@),
        final(body)@ == spec_poison_body(old(body)@, old(world)@),
        final(world)@ == spec_poison_world(old(body)@, old(world)@),
        final(world)@.wf(),
        final(world)@.obstacles == old(world)@.obstacles,
        final(world)@.foods == old(world)@.foods,
{
    let ghost b0 = body@;
    let ghost w0 = world@;
    if body.segments.len() == 0 {
        return false;
    }
    let head = body.segments[0].position;
    if !vec_contains_position(&world.poisons, head) {
        return false;
    }
    remove_position(&mut world.poisons, head);
    let len = body.segments.len();
    let ridx = if len == 1 {
        0
    } else if len == 2 {
        1
    } else {
        len - 2
    };
    let removed_pos = body.segments[ridx].position;
    let removed_orient = body.segments[ridx].orientation;
    body.segments.remove(ridx);
    if body.segments.len() > 1 {
        let last = body.segments.len() - 1;
        let mut tmp = crate::movement::placeholder_segment();
        body.segments.set_and_swap(last, &mut tmp);
        let old_orient = tmp.orientation;
        tmp.position = removed_pos;
        tmp.orientation = removed_orient;
        tmp.transitions.push(Transition { from: old_orient, to: removed_orient, frame: 0 });
        tmp.pending.push(removed_pos);
        body.segments.set(last, tmp);
    }
    assert(body@.segs =~= spec_poison_body(b0, w0).segs);
    true
}

} // verus!
