//! The gravity engine: after movement, the whole body falls rigidly by the
//! minimum fall distance across its segments, so it stops the instant any
//! one segment would land.

use vstd::prelude::*;

use crate::body::BodyView;
use crate::body::SegmentView;
use crate::body::SnakeBody;
use crate::grid::contains_cell;
use crate::grid::GridPosition;
use crate::grid::GridWorld;
use crate::grid::WorldView;
use vstd::pervasive::VecAdditionalExecFns;

verus! {

/// How many cells below a segment the scan for the nearest obstacle reaches.
pub const GRAVITY_SCAN_LIMIT: u32 = 50;

/// The number of empty cells directly below (x, y) before the nearest
/// obstacle, scanning at most `budget` cells: 0 when standing right above an
/// obstacle, `budget` when none is found.
pub open spec fn spec_fall_from(obs: Seq<GridPosition>, x: int, y: int, budget: nat) -> nat
    decreases budget,
{
    if budget == 0 {
        0
    } else if contains_cell(obs, x, y - 1) {
        0
    } else {
        (1 + spec_fall_from(obs, x, y - 1, (budget - 1) as nat)) as nat
    }
}

/// A segment's fall distance: empty cells below it, up to the scan limit.
pub open spec fn spec_fall_distance(obs: Seq<GridPosition>, x: int, y: int) -> nat {
    spec_fall_from(obs, x, y, GRAVITY_SCAN_LIMIT as nat)
}

/// The minimum fall distance over the segments, with the scan limit as the
/// neutral element: no distance exceeds it.
pub open spec fn spec_min_fall(obs: Seq<GridPosition>, segs: Seq<SegmentView>) -> nat
    decreases segs.len(),
{
    if segs.len() == 0 {
        GRAVITY_SCAN_LIMIT as nat
    } else {
        let d0 = spec_fall_distance(obs, segs[0].position.x as int, segs[0].position.y as int);
        let rest = spec_min_fall(obs, segs.drop_first());
        if d0 <= rest {
            d0
        } else {
            rest
        }
    }
}

/// The rigid shift this tick's gravity applies: the minimum fall distance
/// across all segments, or nothing when there is no body.
pub open spec fn spec_fall_shift(b: BodyView, w: WorldView) -> nat {
    if b.segs.len() == 0 {
        0
    } else {
        spec_min_fall(w.obstacles, b.segs)
    }
}

/// A segment after falling by `shift`: the new target position is queued so
/// the consumer animates the fall as one smooth drop.
pub open spec fn spec_fallen_seg(s: SegmentView, shift: nat) -> SegmentView {
    let newpos = GridPosition { x: s.position.x, y: (s.position.y - shift) as i32 };
    SegmentView {
        id: s.id,
        position: newpos,
        orientation: s.orientation,
        transitions: s.transitions,
        pending: s.pending.push(newpos),
    }
}

/// The body after the gravity phase: unchanged when the shift is zero.
pub open spec fn spec_gravity_step(b: BodyView, w: WorldView) -> BodyView {
    let shift = spec_fall_shift(b, w);
    if shift == 0 {
        b
    } else {
        BodyView {
            segs: Seq::new(b.segs.len(), |i: int| spec_fallen_seg(b.segs[i], shift)),
            next_id: b.next_id,
        }
    }
}

/// Whether any obstacle occupies the cell (x, y).
pub fn obstacle_at(world: &GridWorld, x: i32, y: i32) -> (r: bool)
    ensures
        r == contains_cell(world@.obstacles, x as int, y as int),
{
    let mut i: usize = 0;
    while i < world.obstacles.len()
        invariant
            0 <= i <= world@.obstacles.len(),
            forall|j: int|
                0 <= j < i ==> !(world@.obstacles[j].x == x && world@.obstacles[j].y == y),
        decreases world@.obstacles.len() - i,
    {
        if world.obstacles[i].x == x && world.obstacles[i].y == y {
            return true;
        }
        i = i + 1;
    }
    false
}

/// Scans downward from (x, y) for the nearest obstacle, up to the scan
/// limit, and returns the number of empty cells passed.
pub fn fall_distance(world: &GridWorld, x: i32, y: i32) -> (d: u32)
    requires
        y - GRAVITY_SCAN_LIMIT >= i32::MIN,
    ensures
        d == spec_fall_distance(world@.obstacles, x as int, y as int),
        d <= GRAVITY_SCAN_LIMIT,
{
    let ghost obs = world@.obstacles;
    let mut d: u32 = 0;
    while d < GRAVITY_SCAN_LIMIT
        invariant
            0 <= d <= GRAVITY_SCAN_LIMIT,
            y - GRAVITY_SCAN_LIMIT >= i32::MIN,
            obs == world@.obstacles,
            spec_fall_distance(obs, x as int, y as int) == d + spec_fall_from(
                obs,
                x as int,
                y as int - d,
                (GRAVITY_SCAN_LIMIT - d) as nat,
            ),
        decreases GRAVITY_SCAN_LIMIT - d,
    {
        if obstacle_at(world, x, y - (d as i32) - 1) {
            assert(spec_fall_from(obs, x as int, y as int - d, (GRAVITY_SCAN_LIMIT - d) as nat)
                == 0);
            return d;
        }
        assert(spec_fall_from(obs, x as int, y as int - d, (GRAVITY_SCAN_LIMIT - d) as nat) == 1
            + spec_fall_from(obs, x as int, y as int - d - 1, (GRAVITY_SCAN_LIMIT - d - 1) as nat));
        d = d + 1;
    }
    assert(spec_fall_from(obs, x as int, y as int - GRAVITY_SCAN_LIMIT, 0nat) == 0);
    d
}

/// No scan passes more empty cells than its budget.
pub proof fn lemma_fall_from_le(obs: Seq<GridPosition>, x: int, y: int, budget: nat)
    ensures
        spec_fall_from(obs, x, y, budget) <= budget,
    decreases budget,
{
    if budget > 0 && !contains_cell(obs, x, y - 1) {
        lemma_fall_from_le(obs, x, y - 1, (budget - 1) as nat);
    }
}

/// No minimum fall distance exceeds the scan limit.
pub proof fn lemma_min_fall_le(obs: Seq<GridPosition>, segs: Seq<SegmentView>)
    ensures
        spec_min_fall(obs, segs) <= GRAVITY_SCAN_LIMIT,
    decreases segs.len(),
{
    if segs.len() > 0 {
        lemma_fall_from_le(
            obs,
            segs[0].position.x as int,
            segs[0].position.y as int,
            GRAVITY_SCAN_LIMIT as nat,
        );
        lemma_min_fall_le(obs, segs.drop_first());
    }
}

/// The minimum fall distance across the whole body; the scan limit when the
/// body is empty.
pub fn min_fall_distance(world: &GridWorld, body: &SnakeBody) -> (d: u32)
    requires
        forall|i: int|
            0 <= i < body@.segs.len() ==> body@.segs[i].position.y - GRAVITY_SCAN_LIMIT
                >= i32::MIN,
    ensures
        d == spec_min_fall(world@.obstacles, body@.segs),
        d <= GRAVITY_SCAN_LIMIT,
{
    let ghost segs = body@.segs;
    proof {
        lemma_min_fall_le(world@.obstacles, segs);
        assert(segs.skip(0) =~= segs);
    }
    let len = body.segments.len();
    let mut acc: u32 = GRAVITY_SCAN_LIMIT;
    let mut i: usize = 0;
    while i < len
        invariant
            0 <= i <= len,
            len == segs.len(),
            acc <= GRAVITY_SCAN_LIMIT,
            segs == body@.segs,
            forall|j: int| 0 <= j < segs.len() ==> segs[j] == body.segments@[j]@,
            forall|j: int|
                0 <= j < segs.len() ==> segs[j].position.y - GRAVITY_SCAN_LIMIT >= i32::MIN,
            spec_min_fall(world@.obstacles, segs) == (if acc <= spec_min_fall(
                world@.obstacles,
                segs.skip(i as int),
            ) {
                acc as nat
            } else {
                spec_min_fall(world@.obstacles, segs.skip(i as int))
            }),
        decreases len - i,
    {
        let p = body.segments[i].position;
        let di = fall_distance(world, p.x, p.y);
        proof {
            let suffix = segs.skip(i as int);
            assert(suffix.len() > 0);
            assert(suffix[0] == segs[i as int]);
            assert(suffix.drop_first() =~= segs.skip(i as int + 1));
        }
        if di < acc {
            acc = di;
        }
        i = i + 1;
    }
    proof {
        assert(segs.skip(len as int) =~= Seq::<SegmentView>::empty());
    }
    acc
}

/// Applies one tick of gravity: computes the rigid shift and, when it is
/// nonzero, lowers every segment by it, queueing the new target positions.
/// Returns the shift.
pub fn apply_gravity(body: &mut SnakeBody, world: &GridWorld) -> (shift: u32)
    requires
        forall|i: int|
            0 <= i < old(body)@.segs.len() ==> old(body)@.segs[i].position.y - GRAVITY_SCAN_LIMIT
                >= i32::MIN,
    ensures
        shift == spec_fall_shift(old(body)@, world@),
        final(body)@ == spec_gravity_step(old(body)@, world@),
{
    let ghost b0 = body@;
    if body.segments.len() == 0 {
        return 0;
    }
    let shift = min_fall_distance(world, body);
    if shift == 0 {
        return 0;
    }
    let len = body.segments.len();
    let mut i: usize = 0;
    while i < len
        invariant
            0 <= i <= len,
            len == body.segments@.len() == b0.segs.len(),
            shift == spec_fall_shift(b0, world@),
            shift <= GRAVITY_SCAN_LIMIT,
            shift > 0,
            forall|j: int|
                0 <= j < b0.segs.len() ==> b0.segs[j].position.y - GRAVITY_SCAN_LIMIT >= i32::MIN,
            forall|j: int| i <= j < len ==> body.segments@[j]@ == b0.segs[j],
            forall|j: int|
                0 <= j < i ==> body.segments@[j]@ == spec_fallen_seg(b0.segs[j], shift as nat),
            body.next_id == b0.next_id,
        decreases len - i,
    {
        let mut tmp = crate::movement::placeholder_segment();
        body.segments.set_and_swap(i, &mut tmp);
        assert(tmp@ == b0.segs[i as int]);
        let newpos = GridPosition { x: tmp.position.x, y: tmp.position.y - (shift as i32) };
        tmp.position = newpos;
        tmp.pending.push(newpos);
        body.segments.set(i, tmp);
        i = i + 1;
    }
    assert(body@.segs =~= spec_gravity_step(b0, world@).segs);
    shift
}

} // verus!
