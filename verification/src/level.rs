//! Level setup: turns the unordered collection of tagged cells a level
//! definition provides into a fresh simulation state. Head-to-tail order
//! among the body's cells is inferred by sorting on descending x-coordinate
//! — a documented heuristic of the level format, not a correctness
//! guarantee: a body shape that is not monotonic in x is mis-ordered by it.

use vstd::prelude::*;

use crate::body::Segment;
use crate::body::SnakeBody;
use crate::grid::distinct_positions;
use crate::grid::vec_contains_position;
use crate::grid::Direction;
use crate::grid::GridPosition;
use crate::grid::GridWorld;
use crate::grid::Orientation;
use crate::sim::SimState;
use vstd::multiset::Multiset;

verus! {

/// What one cell of a level definition holds.
#[derive(Clone, Copy, Debug, PartialEq, Eq, Structural, Hash)]
pub enum LevelTag {
    Ground,
    SnakeSegment,
    Food,
    Poison,
}

/// One cell of a level definition.
#[derive(Clone, Copy, Debug, PartialEq, Eq, Structural, Hash)]
pub struct LevelEntry {
    pub position: GridPosition,
    pub tag: LevelTag,
}

/// Whether some entry carries `tag` at position `p`.
pub open spec fn has_tagged(entries: Seq<LevelEntry>, tag: LevelTag, p: GridPosition) -> bool {
    exists|j: int| 0 <= j < entries.len() && entries[j].tag == tag && entries[j].position == p
}

/// The positions of the body's cells, as often as they are listed.
pub open spec fn snake_multiset(entries: Seq<LevelEntry>) -> Multiset<GridPosition>
    decreases entries.len(),
{
    if entries.len() == 0 {
        Multiset::empty()
    } else {
        let rest = snake_multiset(entries.drop_last());
        if entries.last().tag == LevelTag::SnakeSegment {
            rest.insert(entries.last().position)
        } else {
            rest
        }
    }
}

/// Positions sorted by descending x-coordinate.
pub open spec fn sorted_descending_x(s: Seq<GridPosition>) -> bool {
    forall|i: int, j: int| 0 <= i < j < s.len() ==> s[i].x >= s[j].x
}

/// Inserting anywhere adds one occurrence to the sequence's multiset.
proof fn lemma_insert_to_multiset(s: Seq<GridPosition>, k: int, a: GridPosition)
    requires
        0 <= k <= s.len(),
    ensures
        s.insert(k, a).to_multiset() =~= s.to_multiset().insert(a),
{
    broadcast use vstd::seq_lib::group_to_multiset_ensures;

    let t = s.insert(k, a);
    s.insert_ensures(k, a);
    assert(t.remove(k) =~= s);
    assert(t.remove(k).to_multiset() =~= t.to_multiset().remove(a));
    assert(t.contains(a)) by {
        assert(t[k] == a);
    }
    assert(t.to_multiset().count(a) > 0);
    assert(t.to_multiset().remove(a).insert(a) =~= t.to_multiset());
}

/// Collects the positions of all entries with `tag`, each cell once.
fn collect_tagged(entries: &Vec<LevelEntry>, tag: LevelTag) -> (r: Vec<GridPosition>)
    ensures
        distinct_positions(r@),
        forall|p: GridPosition| r@.contains(p) <==> has_tagged(entries@, tag, p),
{
    let mut r: Vec<GridPosition> = Vec::new();
    let mut i: usize = 0;
    while i < entries.len()
        invariant
            0 <= i <= entries@.len(),
            distinct_positions(r@),
            forall|p: GridPosition|
                r@.contains(p) <==> has_tagged(entries@.subrange(0, i as int), tag, p),
        decreases entries@.len() - i,
    {
        let ghost prefix = entries@.subrange(0, i as int);
        let e = entries[i];
        if e.tag == tag {
            if !vec_contains_position(&r, e.position) {
                let ghost r0 = r@;
                r.push(e.position);
                assert forall|p: GridPosition| r@.contains(p) implies has_tagged(
                    entries@.subrange(0, i as int + 1),
                    tag,
                    p,
                ) by {
                    let w = choose|w: int| 0 <= w < r@.len() && r@[w] == p;
                    if w < r0.len() {
                        assert(r0.contains(p));
                        let j = choose|j: int|
                            0 <= j < prefix.len() && prefix[j].tag == tag && prefix[j].position
                                == p;
                        assert(entries@.subrange(0, i as int + 1)[j].tag == tag);
                    } else {
                        assert(p == e.position);
                        assert(entries@.subrange(0, i as int + 1)[i as int] == e);
                    }
                }
                assert forall|p: GridPosition| has_tagged(
                    entries@.subrange(0, i as int + 1),
                    tag,
                    p,
                ) implies r@.contains(p) by {
                    let next = entries@.subrange(0, i as int + 1);
                    let j = choose|j: int|
                        0 <= j < next.len() && next[j].tag == tag && next[j].position == p;
                    if j < i as int {
                        assert(prefix[j] == next[j]);
                        assert(has_tagged(prefix, tag, p));
                        assert(r0.contains(p));
                        let w = choose|w: int| 0 <= w < r0.len() && r0[w] == p;
                        assert(r@[w] == p);
                    } else {
                        assert(r@[r0.len() as int] == e.position);
                    }
                }
            } else {
                assert forall|p: GridPosition| r@.contains(p) <==> has_tagged(
                    entries@.subrange(0, i as int + 1),
                    tag,
                    p,
                ) by {
                    let next = entries@.subrange(0, i as int + 1);
                    assert(forall|j: int| 0 <= j < i ==> next[j] == prefix[j]);
                    assert(next[i as int] == e);
                    if has_tagged(next, tag, p) {
                        let j = choose|j: int|
                            0 <= j < next.len() && next[j].tag == tag && next[j].position == p;
                        if j < i as int {
                            assert(has_tagged(prefix, tag, p));
                        } else {
                            assert(p == e.position);
                        }
                    }
                    if has_tagged(prefix, tag, p) {
                        let j = choose|j: int|
                            0 <= j < prefix.len() && prefix[j].tag == tag && prefix[j].position
                                == p;
                        assert(next[j].tag == tag && next[j].position == p);
                    }
                }
            }
        } else {
            assert forall|p: GridPosition| r@.contains(p) <==> has_tagged(
                entries@.subrange(0, i as int + 1),
                tag,
                p,
            ) by {
                let next = entries@.subrange(0, i as int + 1);
                assert(forall|j: int| 0 <= j < i ==> next[j] == prefix[j]);
                assert(next[i as int] == e);
                if has_tagged(next, tag, p) {
                    let j = choose|j: int|
                        0 <= j < next.len() && next[j].tag == tag && next[j].position == p;
                    assert(j < i as int);
                    assert(has_tagged(prefix, tag, p));
                }
                if has_tagged(prefix, tag, p) {
                    let j = choose|j: int|
                        0 <= j < prefix.len() && prefix[j].tag == tag && prefix[j].position == p;
                    assert(next[j].tag == tag && next[j].position == p);
                }
            }
        }
        i = i + 1;
    }
    proof {
        assert(entries@.subrange(0, entries@.len() as int) =~= entries@);
    }
    r
}

/// Collects the body's cells sorted on descending x-coordinate.
fn collect_snake_sorted(entries: &Vec<LevelEntry>) -> (r: Vec<GridPosition>)
    ensures
        sorted_descending_x(r@),
        r@.to_multiset() == snake_multiset(entries@),
{
    let mut r: Vec<GridPosition> = Vec::new();
    proof {
        broadcast use vstd::seq_lib::group_to_multiset_ensures;

        assert(r@.to_multiset() =~= Multiset::<GridPosition>::empty());
    }
    let mut i: usize = 0;
    while i < entries.len()
        invariant
            0 <= i <= entries@.len(),
            sorted_descending_x(r@),
            r@.to_multiset() == snake_multiset(entries@.subrange(0, i as int)),
        decreases entries@.len() - i,
    {
        let ghost prefix = entries@.subrange(0, i as int);
        let e = entries[i];
        proof {
            assert(entries@.subrange(0, i as int + 1).drop_last() =~= prefix);
            assert(entries@.subrange(0, i as int + 1).last() == e);
        }
        if matches!(e.tag, LevelTag::SnakeSegment) {
            let ghost r0 = r@;
            let mut k: usize = 0;
            while k < r.len() && r[k].x >= e.position.x
                invariant
                    0 <= k <= r@.len(),
                    r@ == r0,
                    forall|j: int| 0 <= j < k ==> r@[j].x >= e.position.x,
                decreases r@.len() - k,
            {
                k = k + 1;
            }
            assert(forall|j: int| 0 <= j < k ==> r0[j].x >= e.position.x);
            assert(k < r0.len() ==> r0[k as int].x < e.position.x);
            r.insert(k, e.position);
            proof {
                r0.insert_ensures(k as int, e.position);
                assert(sorted_descending_x(r@)) by {
                    assert forall|a: int, b: int| 0 <= a < b < r@.len() implies r@[a].x
                        >= r@[b].x by {
                        if a < k as int && b == k as int {
                        } else if a == k as int && b > k as int {
                            assert(r@[b] == r0[b - 1]);
                            assert(r0[k as int].x < e.position.x);
                            assert(r0[k as int].x >= r0[b - 1].x);
                        } else if a < k as int && b > k as int {
                            assert(r@[a] == r0[a] && r@[b] == r0[b - 1]);
                        } else if b < k as int {
                            assert(r@[a] == r0[a] && r@[b] == r0[b]);
                        } else if a > k as int {
                            assert(r@[a] == r0[a - 1] && r@[b] == r0[b - 1]);
                        }
                    }
                }
                lemma_insert_to_multiset(r0, k as int, e.position);
            }
        }
        i = i + 1;
    }
    proof {
        assert(entries@.subrange(0, entries@.len() as int) =~= entries@);
    }
    r
}

/// The body the sorted cells yield: sequential ids, every segment facing
/// right, empty queues.
pub open spec fn spec_initial_body(positions: Seq<GridPosition>) -> crate::body::BodyView {
    crate::body::BodyView {
        segs: Seq::new(
            positions.len(),
            |i: int|
                crate::body::SegmentView {
                    id: i as u64,
                    position: positions[i],
                    orientation: Orientation { from: Direction::Left, to: Direction::Right },
                    transitions: Seq::empty(),
                    pending: Seq::empty(),
                },
        ),
        next_id: positions.len() as u64,
    }
}

/// Builds a fresh simulation state from a level definition: the three
/// occupancy indices as sets, the body ordered head-first on descending x,
/// an empty history, and the win flag down.
pub fn build_level(entries: &Vec<LevelEntry>) -> (s: SimState)
    ensures
        s@.wf(),
        forall|p: GridPosition|
            s@.world.obstacles.contains(p) <==> has_tagged(entries@, LevelTag::Ground, p),
        forall|p: GridPosition|
            s@.world.foods.contains(p) <==> has_tagged(entries@, LevelTag::Food, p),
        forall|p: GridPosition|
            s@.world.poisons.contains(p) <==> has_tagged(entries@, LevelTag::Poison, p),
        sorted_descending_x(s@.body.positions()),
        s@.body.positions().to_multiset() == snake_multiset(entries@),
        s@.body == spec_initial_body(s@.body.positions()),
        s@.history == Seq::<crate::history::SnapshotView>::empty(),
        s@.won == false,
{
    let obstacles = collect_tagged(entries, LevelTag::Ground);
    let foods = collect_tagged(entries, LevelTag::Food);
    let poisons = collect_tagged(entries, LevelTag::Poison);
    let snake_cells = collect_snake_sorted(entries);

    let ghost cells = snake_cells@;
    let mut segments: Vec<Segment> = Vec::new();
    let len = snake_cells.len();
    let mut i: usize = 0;
    while i < len
        invariant
            0 <= i <= len,
            len == cells.len() <= u64::MAX,
            cells == snake_cells@,
            segments@.len() == i,
            forall|j: int| 0 <= j < i ==> segments@[j]@ == spec_initial_body(cells).segs[j],
        decreases len - i,
    {
        let seg = Segment {
            id: i as u64,
            position: snake_cells[i],
            orientation: Orientation { from: Direction::Left, to: Direction::Right },
            transitions: Vec::new(),
            pending: Vec::new(),
        };
        assert(seg@.transitions =~= Seq::empty());
        assert(seg@.pending =~= Seq::empty());
        assert(seg@ == spec_initial_body(cells).segs[i as int]);
        segments.push(seg);
        i = i + 1;
    }
    let body = SnakeBody { segments: segments, next_id: len as u64 };
    assert(body@.segs =~= spec_initial_body(cells).segs);
    let s = SimState {
        body: body,
        world: GridWorld { obstacles: obstacles, foods: foods, poisons: poisons },
        history: Vec::new(),
        won: false,
    };
    assert(s@.history =~= Seq::<crate::history::SnapshotView>::empty());
    assert(s@.body.positions() =~= cells);
    s
}

} // verus!
