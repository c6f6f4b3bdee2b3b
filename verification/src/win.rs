//! The win detector: the head has come back to the tail. The grid model
//! alone cannot tell "just arrived" from "mid-flight", so final confirmation
//! takes a settled signal from the external interpolation consumer.

use vstd::prelude::*;

use crate::body::BodyView;
use crate::body::SnakeBody;

verus! {

/// The grid-coincidence fact the core exposes: the body is longer than 2 and
/// the head occupies the tail's cell.
pub open spec fn spec_grid_win(b: BodyView) -> bool {
    b.segs.len() > 2 && b.head().position == b.tail().position
}

/// The full win condition: grid coincidence, confirmed settled from outside.
pub open spec fn spec_win(b: BodyView, settled: bool) -> bool {
    spec_grid_win(b) && settled
}

/// Whether the head occupies the tail's cell on a body longer than 2.
pub fn grid_coincidence(body: &SnakeBody) -> (r: bool)
    ensures
        r == spec_grid_win(body@),
{
    let len = body.segments.len();
    if len <= 2 {
        return false;
    }
    let head = body.segments[0].position;
    let tail = body.segments[len - 1].position;
    head.x == tail.x && head.y == tail.y
}

/// Whether the win condition holds this tick, both grid coincidence and the
/// externally supplied settled signal being true.
pub fn win_check(body: &SnakeBody, settled: bool) -> (r: bool)
    ensures
        r == spec_win(body@, settled),
{
    grid_coincidence(body) && settled
}

} // verus!
