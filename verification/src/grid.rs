//! Grid-level value types: positions, directions, orientations, bend
//! transitions, edge-triggered directional presses, and the occupancy index
//! of obstacles, food and poison.

use vstd::prelude::*;

verus! {

/// One of the four axis directions a segment can face or move toward.
#[derive(Clone, Copy, Debug, PartialEq, Eq, Structural, Hash)]
pub enum Direction {
    Up,
    Down,
    Left,
    Right,
}

/// A cell of the integer grid. Equality is by value; the grid is unbounded
/// apart from the machine range of the coordinates.
#[derive(Clone, Copy, Debug, PartialEq, Eq, Structural, Hash)]
pub struct GridPosition {
    pub x: i32,
    pub y: i32,
}

/// The directions a segment's body connects toward: it comes in `from` and
/// leaves toward `to`.
#[derive(Clone, Copy, Debug, PartialEq, Eq, Structural, Hash)]
pub struct Orientation {
    pub from: Direction,
    pub to: Direction,
}

/// One queued animation bend: the orientation the segment had, the one it
/// takes, and a frame counter that a consumer advances once per tick up to
/// `TRANSITION_FRAME_MAX`, at which point the transition is dequeued.
#[derive(Clone, Copy, Debug, PartialEq, Eq, Structural, Hash)]
pub struct Transition {
    pub from: Orientation,
    pub to: Orientation,
    pub frame: u32,
}

/// The per-transition subdivision count: a transition is settled once its
/// frame counter has reached this value.
pub const TRANSITION_FRAME_MAX: u32 = 4;

/// The edge-triggered directional presses sampled for one tick. Each flag
/// says that the key was just pressed this tick, not that it is held.
#[derive(Clone, Copy, Debug, PartialEq, Eq, Structural, Hash)]
pub struct DirectionPresses {
    pub left: bool,
    pub right: bool,
    pub down: bool,
    pub up: bool,
}

/// Everything that can go wrong inside the simulation core. No variant is
/// fatal: a failed tick degrades to a no-op or a sentinel.
#[derive(Clone, Copy, Debug, PartialEq, Eq, Structural, Hash)]
pub enum SimError {
    /// The proposed head cell is blocked; the tick mutates nothing.
    IllegalMove,
    /// An id expected in the body store is absent.
    MissingSegmentLookup,
    /// A (from, to) orientation pair absent from the bend table.
    UnrecognizedTransitionPair,
    /// Undo attempted with only the bootstrap snapshot present.
    UndoUnderflow,
}

pub open spec fn spec_opposite(d: Direction) -> Direction {
    match d {
        Direction::Up => Direction::Down,
        Direction::Down => Direction::Up,
        Direction::Left => Direction::Right,
        Direction::Right => Direction::Left,
    }
}

/// The direction pointing the opposite way.
pub fn opposite(d: Direction) -> (r: Direction)
    ensures
        r == spec_opposite(d),
{
    match d {
        Direction::Up => Direction::Down,
        Direction::Down => Direction::Up,
        Direction::Left => Direction::Right,
        Direction::Right => Direction::Left,
    }
}

/// The horizontal delta of one tick's presses: each press adds its step to a
/// zero-initialized delta, so opposing presses cancel.
pub open spec fn press_dx(p: DirectionPresses) -> int {
    (if p.right { 1int } else { 0int }) - (if p.left { 1int } else { 0int })
}

/// The vertical delta of one tick's presses.
pub open spec fn press_dy(p: DirectionPresses) -> int {
    (if p.up { 1int } else { 0int }) - (if p.down { 1int } else { 0int })
}

/// The intent direction that orientation updates use, resolved from the
/// presses in the fixed check order left, right, down, up, the later
/// overriding the earlier.
pub open spec fn spec_intent_direction(p: DirectionPresses) -> Direction {
    if p.up {
        Direction::Up
    } else if p.down {
        Direction::Down
    } else if p.right {
        Direction::Right
    } else {
        Direction::Left
    }
}

/// The additive movement delta of one tick's presses.
pub fn press_delta(p: DirectionPresses) -> (r: (i32, i32))
    ensures
        r.0 as int == press_dx(p),
        r.1 as int == press_dy(p),
{
    let mut dx: i32 = 0;
    let mut dy: i32 = 0;
    if p.left {
        dx = dx - 1;
    }
    if p.right {
        dx = dx + 1;
    }
    if p.down {
        dy = dy - 1;
    }
    if p.up {
        dy = dy + 1;
    }
    (dx, dy)
}

/// The intent direction resolved from the presses.
pub fn intent_direction(p: DirectionPresses) -> (r: Direction)
    ensures
        r == spec_intent_direction(p),
{
    if p.up {
        Direction::Up
    } else if p.down {
        Direction::Down
    } else if p.right {
        Direction::Right
    } else {
        Direction::Left
    }
}

/// Whether some position of `s` has the coordinates (x, y).
pub open spec fn contains_cell(s: Seq<GridPosition>, x: int, y: int) -> bool {
    exists|i: int| 0 <= i < s.len() && s[i].x == x && s[i].y == y
}

/// A sequence of positions with no cell listed twice: the executable form of
/// a set of cells.
pub open spec fn distinct_positions(s: Seq<GridPosition>) -> bool {
    forall|i: int, j: int| 0 <= i < j < s.len() ==> s[i] != s[j]
}

/// Occupancy index of the level: the static obstacle cells, and the food and
/// poison cells still present. Obstacles are mutated only by level editing
/// outside the simulation; food and poison shrink as they are consumed.
#[derive(Clone, Debug)]
pub struct GridWorld {
    pub obstacles: Vec<GridPosition>,
    pub foods: Vec<GridPosition>,
    pub poisons: Vec<GridPosition>,
}

/// The mathematical content of a `GridWorld`.
pub ghost struct WorldView {
    pub obstacles: Seq<GridPosition>,
    pub foods: Seq<GridPosition>,
    pub poisons: Seq<GridPosition>,
}

impl View for GridWorld {
    type V = WorldView;

    open spec fn view(&self) -> WorldView {
        WorldView { obstacles: self.obstacles@, foods: self.foods@, poisons: self.poisons@ }
    }
}

impl WorldView {
    /// Each of the three indices holds a set: no cell is listed twice.
    pub open spec fn wf(self) -> bool {
        &&& distinct_positions(self.obstacles)
        &&& distinct_positions(self.foods)
        &&& distinct_positions(self.poisons)
    }
}

/// Whether `p` occurs in `v`, by linear scan.
pub fn vec_contains_position(v: &Vec<GridPosition>, p: GridPosition) -> (r: bool)
    ensures
        r == v@.contains(p),
{
    let mut i: usize = 0;
    while i < v.len()
        invariant
            0 <= i <= v@.len(),
            forall|j: int| 0 <= j < i ==> v@[j] != p,
        decreases v@.len() - i,
    {
        if v[i].x == p.x && v[i].y == p.y {
            assert(v@[i as int] == p);
            return true;
        }
        i = i + 1;
    }
    false
}

/// Removes the one occurrence of `p` from `v`, keeping the order of the
/// others.
pub fn remove_position(v: &mut Vec<GridPosition>, p: GridPosition)
    requires
        old(v)@.contains(p),
        distinct_positions(old(v)@),
    ensures
        final(v)@ == old(v)@.remove(old(v)@.index_of(p)),
        final(v)@.len() == old(v)@.len() - 1,
        !final(v)@.contains(p),
        distinct_positions(final(v)@),
        forall|q: GridPosition| q != p ==> (final(v)@.contains(q) <==> old(v)@.contains(q)),
{
    let ghost orig = v@;
    let mut i: usize = 0;
    while i < v.len()
        invariant
            orig == old(v)@,
            v@ == orig,
            0 <= i <= orig.len(),
            forall|j: int| 0 <= j < i ==> orig[j] != p,
            orig.contains(p),
            distinct_positions(orig),
        decreases orig.len() - i,
    {
        if v[i].x == p.x && v[i].y == p.y {
            assert(orig[i as int] == p);
            assert(orig.index_of(p) == i as int) by {
                assert(orig[i as int] == p);
                let k = orig.index_of(p);
                assert(0 <= k < orig.len() && orig[k] == p);
                if k < i as int {
                    assert(orig[k] != orig[i as int]);
                } else if k > i as int {
                    assert(orig[i as int] != orig[k]);
                }
            }
            v.remove(i);
            proof {
                let rem = orig.remove(i as int);
                assert forall|q: GridPosition| q != p && orig.contains(q) implies rem.contains(
                    q,
                ) by {
                    let w = choose|w: int| 0 <= w < orig.len() && orig[w] == q;
                    if w < i {
                        assert(rem[w] == q);
                    } else {
                        assert(rem[w - 1] == q);
                    }
                }
                assert forall|q: GridPosition| rem.contains(q) implies orig.contains(q) by {
                    let w = choose|w: int| 0 <= w < rem.len() && rem[w] == q;
                    if w < i {
                        assert(orig[w] == q);
                    } else {
                        assert(orig[w + 1] == q);
                    }
                }
                assert(!rem.contains(p)) by {
                    if rem.contains(p) {
                        let w = choose|w: int| 0 <= w < rem.len() && rem[w] == p;
                        if w < i {
                            assert(orig[w] == p);
                        } else {
                            assert(orig[w + 1] == p);
                        }
                    }
                }
            }
            return ;
        }
        i = i + 1;
    }
    proof {
        let k = choose|k: int| 0 <= k < orig.len() && orig[k] == p;
        assert(orig[k] != p);
    }
}

} // verus!
