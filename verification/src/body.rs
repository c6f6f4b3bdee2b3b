//! The body store: an ordered sequence of segments, head first, each with a
//! stable identity, a grid position, an orientation, a queue of pending bend
//! transitions for the consumer, and a queue of pending target positions.

use vstd::prelude::*;

use crate::grid::GridPosition;
use crate::grid::Orientation;
use crate::grid::SimError;
use crate::grid::Transition;

verus! {

/// One discrete occupied grid cell of the body. Its id is unique for its
/// lifetime; the two queues are consumed by the presentation layer.
#[derive(Clone, Debug)]
pub struct Segment {
    pub id: u64,
    pub position: GridPosition,
    pub orientation: Orientation,
    pub transitions: Vec<Transition>,
    pub pending: Vec<GridPosition>,
}

/// The mathematical content of a `Segment`.
pub ghost struct SegmentView {
    pub id: u64,
    pub position: GridPosition,
    pub orientation: Orientation,
    pub transitions: Seq<Transition>,
    pub pending: Seq<GridPosition>,
}

impl View for Segment {
    type V = SegmentView;

    open spec fn view(&self) -> SegmentView {
        SegmentView {
            id: self.id,
            position: self.position,
            orientation: self.orientation,
            transitions: self.transitions@,
            pending: self.pending@,
        }
    }
}

/// The ordered body, head at index 0, tail last, plus the counter from which
/// fresh segment ids are drawn.
#[derive(Clone, Debug)]
pub struct SnakeBody {
    pub segments: Vec<Segment>,
    pub next_id: u64,
}

/// The mathematical content of a `SnakeBody`.
pub ghost struct BodyView {
    pub segs: Seq<SegmentView>,
    pub next_id: u64,
}

impl View for SnakeBody {
    type V = BodyView;

    open spec fn view(&self) -> BodyView {
        BodyView {
            segs: Seq::new(self.segments@.len(), |i: int| self.segments@[i]@),
            next_id: self.next_id,
        }
    }
}

impl BodyView {
    /// Ids are unique for the body's lifetime and never reused: every live id
    /// lies below the fresh-id counter, and no two segments share one.
    pub open spec fn wf(self) -> bool {
        &&& forall|i: int| 0 <= i < self.segs.len() ==> self.segs[i].id < self.next_id
        &&& forall|i: int, j: int|
            0 <= i < j < self.segs.len() ==> self.segs[i].id != self.segs[j].id
    }

    /// The head segment.
    pub open spec fn head(self) -> SegmentView
        recommends
            self.segs.len() > 0,
    {
        self.segs[0]
    }

    /// The tail segment.
    pub open spec fn tail(self) -> SegmentView
        recommends
            self.segs.len() > 0,
    {
        self.segs[self.segs.len() - 1]
    }

    /// The positions of the segments, in body order.
    pub open spec fn positions(self) -> Seq<GridPosition> {
        self.segs.map_values(|s: SegmentView| s.position)
    }
}

impl SnakeBody {
    /// An empty body: no segments yet, ids start at zero.
    pub fn empty() -> (r: SnakeBody)
        ensures
            r@.segs =~= Seq::<SegmentView>::empty(),
            r@.next_id == 0,
            r@.wf(),
    {
        SnakeBody { segments: Vec::new(), next_id: 0 }
    }

    /// The number of segments.
    pub fn len(&self) -> (r: usize)
        ensures
            r == self@.segs.len(),
    {
        self.segments.len()
    }

    /// The position of the segment at `index`.
    pub fn position_at(&self, index: usize) -> (r: GridPosition)
        requires
            index < self@.segs.len(),
        ensures
            r == self@.segs[index as int].position,
    {
        self.segments[index].position
    }

    /// The orientation of the segment at `index`.
    pub fn orientation_at(&self, index: usize) -> (r: Orientation)
        requires
            index < self@.segs.len(),
        ensures
            r == self@.segs[index as int].orientation,
    {
        self.segments[index].orientation
    }

    /// The id of the segment at `index`.
    pub fn id_at(&self, index: usize) -> (r: u64)
        requires
            index < self@.segs.len(),
        ensures
            r == self@.segs[index as int].id,
    {
        self.segments[index].id
    }

    /// Looks a segment up by its stable id. The id of a segment that was
    /// removed, or never issued, is not in the store: that lookup reports
    /// `MissingSegmentLookup`, which a caller treats as non-fatal — the
    /// sub-step is skipped and retried next tick.
    pub fn index_of_id(&self, id: u64) -> (r: Result<usize, SimError>)
        ensures
            match r {
                Ok(i) => i < self@.segs.len() && self@.segs[i as int].id == id,
                Err(e) => e == SimError::MissingSegmentLookup && forall|i: int|
                    0 <= i < self@.segs.len() ==> self@.segs[i].id != id,
            },
    {
        let mut i: usize = 0;
        while i < self.segments.len()
            invariant
                0 <= i <= self@.segs.len(),
                self@.segs.len() == self.segments@.len(),
                forall|j: int| 0 <= j < i ==> self@.segs[j].id != id,
                forall|j: int| 0 <= j < self.segments@.len() ==> self@.segs[j] == self.segments@[j]@,
            decreases self.segments@.len() - i,
        {
            if self.segments[i].id == id {
                return Ok(i);
            }
            i = i + 1;
        }
        Err(SimError::MissingSegmentLookup)
    }
}

} // verus!
