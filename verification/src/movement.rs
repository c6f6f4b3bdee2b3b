//! The movement engine: resolves one discrete step from the tick's
//! directional presses, applying the length-dependent collision policy and
//! propagating positions and orientations through the body.

use vstd::prelude::*;

use crate::body::BodyView;
use crate::body::Segment;
use crate::body::SegmentView;
use crate::body::SnakeBody;
use crate::grid::contains_cell;
use crate::grid::intent_direction;
use crate::grid::opposite;
use crate::grid::press_delta;
use crate::grid::press_dx;
use crate::grid::press_dy;
use crate::grid::spec_intent_direction;
use crate::grid::spec_opposite;
use crate::grid::DirectionPresses;
use crate::grid::GridPosition;
use crate::grid::GridWorld;
use crate::grid::Orientation;
use crate::grid::SimError;
use crate::grid::Transition;
use crate::grid::WorldView;
use crate::grid::TRANSITION_FRAME_MAX;

verus! {

/// The length-dependent collision policy: whether the segment at `i` of a
/// body of length `len` belongs to the blocked set. At length up to 3 every
/// segment but the head is excluded (at 3, the middle and the tail); at
/// length 4 and more, segments 1 through `len - 3` block, while the
/// second-to-last and the tail are excluded.
pub open spec fn body_blocks_index(len: int, i: int) -> bool {
    if len <= 3 {
        i == 0
    } else {
        1 <= i <= len - 3
    }
}

/// Whether the cell (x, y) would reject a proposed head move: it is an
/// obstacle, or a body cell that the collision policy includes.
pub open spec fn spec_blocked(w: WorldView, segs: Seq<SegmentView>, x: int, y: int) -> bool {
    ||| contains_cell(w.obstacles, x, y)
    ||| exists|i: int|
        0 <= i < segs.len() && body_blocks_index(segs.len() as int, i) && segs[i].position.x == x
            && segs[i].position.y == y
}

/// Decides whether the cell (x, y) is in this tick's blocked set.
pub fn is_blocked(world: &GridWorld, body: &SnakeBody, x: i32, y: i32) -> (r: bool)
    ensures
        r == spec_blocked(world@, body@.segs, x as int, y as int),
{
    let mut i: usize = 0;
    while i < world.obstacles.len()
        invariant
            0 <= i <= world@.obstacles.len(),
            forall|j: int|
                0 <= j < i ==> !(world@.obstacles[j].x == x && world@.obstacles[j].y == y),
        decreases world@.obstacles.len() - i,
    {
        if world.obstacles[i].x == x && world.obstacles[i].y == y {
            return true;
        }
        i = i + 1;
    }
    let len = body.segments.len();
    let mut k: usize = 0;
    while k < len
        invariant
            0 <= k <= len,
            len == body@.segs.len(),
            forall|j: int| 0 <= j < body@.segs.len() ==> body@.segs[j] == body.segments@[j]@,
            !contains_cell(world@.obstacles, x as int, y as int),
            forall|j: int|
                0 <= j < k ==> !(body_blocks_index(len as int, j) && body@.segs[j].position.x == x
                    && body@.segs[j].position.y == y),
        decreases len - k,
    {
        let included = if len <= 3 {
            k == 0
        } else {
            1 <= k && k <= len - 3
        };
        if included {
            let p = body.segments[k].position;
            if p.x == x && p.y == y {
                assert(body_blocks_index(len as int, k as int) && body@.segs[k as int].position.x
                    == x as int && body@.segs[k as int].position.y == y as int);
                return true;
            }
        }
        k = k + 1;
    }
    false
}

/// The segment at `i` after an accepted move of `segs` under `p`: positions
/// shift by one toward the head, whose new cell is its old cell plus the
/// presses' delta; each segment's new target position is queued. The head's
/// orientation comes from the intent direction and its change is recorded
/// settled, so an undo later has a consistent last transition; the neck has
/// its `from` forced opposite to its previous `to`; every other segment
/// inherits its predecessor's previous orientation.
pub open spec fn spec_moved_seg(
    segs: Seq<SegmentView>,
    p: DirectionPresses,
    i: int,
) -> SegmentView
    recommends
        0 <= i < segs.len(),
{
    let dir = spec_intent_direction(p);
    if i == 0 {
        let newpos = GridPosition {
            x: (segs[0].position.x + press_dx(p)) as i32,
            y: (segs[0].position.y + press_dy(p)) as i32,
        };
        let neworient = Orientation { from: spec_opposite(dir), to: dir };
        SegmentView {
            id: segs[0].id,
            position: newpos,
            orientation: neworient,
            transitions: segs[0].transitions.push(
                Transition { from: segs[0].orientation, to: neworient, frame: TRANSITION_FRAME_MAX },
            ),
            pending: segs[0].pending.push(newpos),
        }
    } else if i == 1 {
        let neworient = Orientation { from: spec_opposite(segs[1].orientation.to), to: dir };
        SegmentView {
            id: segs[1].id,
            position: segs[0].position,
            orientation: neworient,
            transitions: segs[1].transitions.push(
                Transition { from: segs[1].orientation, to: neworient, frame: 0 },
            ),
            pending: segs[1].pending.push(segs[0].position),
        }
    } else {
        SegmentView {
            id: segs[i].id,
            position: segs[i - 1].position,
            orientation: segs[i - 1].orientation,
            transitions: segs[i].transitions.push(
                Transition { from: segs[i].orientation, to: segs[i - 1].orientation, frame: 0 },
            ),
            pending: segs[i].pending.push(segs[i - 1].position),
        }
    }
}

/// The whole body after an accepted move.
pub open spec fn spec_moved_segs(segs: Seq<SegmentView>, p: DirectionPresses) -> Seq<SegmentView> {
    Seq::new(segs.len(), |i: int| spec_moved_seg(segs, p, i))
}

/// A tick whose presses cancel to a zero delta, or with nothing to move: a
/// no-op.
pub open spec fn spec_no_intent(b: BodyView, p: DirectionPresses) -> bool {
    b.segs.len() == 0 || (press_dx(p) == 0 && press_dy(p) == 0)
}

/// The head cell a nonzero delta proposes.
pub open spec fn spec_proposed_x(b: BodyView, p: DirectionPresses) -> int {
    b.segs[0].position.x + press_dx(p)
}

/// The head cell a nonzero delta proposes.
pub open spec fn spec_proposed_y(b: BodyView, p: DirectionPresses) -> int {
    b.segs[0].position.y + press_dy(p)
}

/// Whether this tick's move is rejected by the blocked set.
pub open spec fn spec_move_blocked(b: BodyView, w: WorldView, p: DirectionPresses) -> bool {
    &&& !spec_no_intent(b, p)
    &&& spec_blocked(w, b.segs, spec_proposed_x(b, p), spec_proposed_y(b, p))
}

/// Whether this tick's move is accepted and commits.
pub open spec fn spec_move_applies(b: BodyView, w: WorldView, p: DirectionPresses) -> bool {
    &&& !spec_no_intent(b, p)
    &&& !spec_blocked(w, b.segs, spec_proposed_x(b, p), spec_proposed_y(b, p))
}

/// The body after the movement phase, whatever its outcome.
pub open spec fn spec_move_step(b: BodyView, w: WorldView, p: DirectionPresses) -> BodyView {
    if spec_move_applies(b, w, p) {
        BodyView { segs: spec_moved_segs(b.segs, p), next_id: b.next_id }
    } else {
        b
    }
}

pub(crate) fn placeholder_segment() -> Segment {
    Segment {
        id: 0,
        position: GridPosition { x: 0, y: 0 },
        orientation: Orientation { from: crate::grid::Direction::Left, to: crate::grid::Direction::Right },
        transitions: Vec::new(),
        pending: Vec::new(),
    }
}

/// Resolves one discrete step. A zero delta or an empty body is a no-op
/// (`Ok(false)`); a proposed head cell in the blocked set rejects the move
/// with nothing mutated (`Err(IllegalMove)`); otherwise the move commits
/// (`Ok(true)`): positions shift by one toward the head and orientations
/// propagate, with a bend transition queued on every segment.
pub fn step_move(body: &mut SnakeBody, world: &GridWorld, p: DirectionPresses) -> (r: Result<
    bool,
    SimError,
>)
    requires
        !spec_no_intent(old(body)@, p) ==> {
            &&& i32::MIN <= spec_proposed_x(old(body)@, p) <= i32::MAX
            &&& i32::MIN <= spec_proposed_y(old(body)@, p) <= i32::MAX
        },
    ensures
        final(body)@ == spec_move_step(old(body)@, world@, p),
        spec_no_intent(old(body)@, p) ==> r == Ok::<bool, SimError>(false),
        spec_move_blocked(old(body)@, world@, p) ==> r == Err::<bool, SimError>(
            SimError::IllegalMove,
        ),
        spec_move_applies(old(body)@, world@, p) ==> r == Ok::<bool, SimError>(true),
{
    let ghost b0 = body@;
    let (dx, dy) = press_delta(p);
    if body.segments.len() == 0 {
        return Ok(false);
    }
    if dx == 0 && dy == 0 {
        return Ok(false);
    }
    let head = body.segments[0].position;
    let new_head_pos = GridPosition { x: head.x + dx, y: head.y + dy };
    if is_blocked(world, body, new_head_pos.x, new_head_pos.y) {
        return Err(SimError::IllegalMove);
    }
    assert(spec_move_applies(b0, world@, p));
    let ghost target = spec_moved_segs(b0.segs, p);
    let dir = intent_direction(p);
    let len = body.segments.len();
    let mut i: usize = len;
    while i > 0
        invariant
            1 <= len == body.segments@.len() == b0.segs.len() == target.len(),
            0 <= i <= len,
            dir == spec_intent_direction(p),
            new_head_pos.x as int == b0.segs[0].position.x + press_dx(p),
            new_head_pos.y as int == b0.segs[0].position.y + press_dy(p),
            target == spec_moved_segs(b0.segs, p),
            forall|j: int| 0 <= j < i ==> body.segments@[j]@ == b0.segs[j],
            forall|j: int| i <= j < len ==> body.segments@[j]@ == target[j],
            body.next_id == b0.next_id,
        decreases i,
    {
        let idx = i - 1;
        let mut tmp = placeholder_segment();
        body.segments.set_and_swap(idx, &mut tmp);
        if idx == 0 {
            let old_orient = tmp.orientation;
            let neworient = Orientation { from: opposite(dir), to: dir };
            tmp.position = new_head_pos;
            tmp.pending.push(new_head_pos);
            tmp.transitions.push(
                Transition { from: old_orient, to: neworient, frame: TRANSITION_FRAME_MAX },
            );
            tmp.orientation = neworient;
        } else if idx == 1 {
            let old_orient = tmp.orientation;
            let neworient = Orientation { from: opposite(old_orient.to), to: dir };
            let newpos = body.segments[0].position;
            tmp.position = newpos;
            tmp.pending.push(newpos);
            tmp.transitions.push(Transition { from: old_orient, to: neworient, frame: 0 });
            tmp.orientation = neworient;
        } else {
            let old_orient = tmp.orientation;
            let pred = &body.segments[idx - 1];
            let newpos = pred.position;
            let neworient = pred.orientation;
            tmp.position = newpos;
            tmp.pending.push(newpos);
            tmp.transitions.push(Transition { from: old_orient, to: neworient, frame: 0 });
            tmp.orientation = neworient;
        }
        assert(tmp@ == spec_moved_seg(b0.segs, p, idx as int));
        body.segments.set(idx, tmp);
        i = idx;
    }
    assert(body@.segs =~= target);
    assert(body@ == spec_move_step(b0, world@, p));
    Ok(true)
}

} // verus!
