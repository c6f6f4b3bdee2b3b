use taileater::body::{Segment, SnakeBody};
use taileater::grid::{Direction, DirectionPresses, GridPosition, GridWorld, Orientation, SimError};
use taileater::movement::step_move;

fn pos(x: i32, y: i32) -> GridPosition {
    GridPosition { x, y }
}

fn straight() -> Orientation {
    Orientation { from: Direction::Left, to: Direction::Right }
}

fn seg(id: u64, x: i32, y: i32, o: Orientation) -> Segment {
    Segment { id, position: pos(x, y), orientation: o, transitions: Vec::new(), pending: Vec::new() }
}

fn body_of(positions: &[(i32, i32)]) -> SnakeBody {
    let segments: Vec<Segment> = positions
        .iter()
        .enumerate()
        .map(|(i, &(x, y))| seg(i as u64, x, y, straight()))
        .collect();
    let next_id = segments.len() as u64;
    SnakeBody { segments, next_id }
}

fn empty_world() -> GridWorld {
    GridWorld { obstacles: Vec::new(), foods: Vec::new(), poisons: Vec::new() }
}

fn press(left: bool, right: bool, down: bool, up: bool) -> DirectionPresses {
    DirectionPresses { left, right, down, up }
}

#[test]
fn move_right_shifts_positions_and_orientations() {
    let mut body = body_of(&[(0, 0), (-1, 0), (-2, 0), (-3, 0)]);
    let world = empty_world();
    let old_head_orient = body.segments[0].orientation;
    let old_seg1_orient = body.segments[1].orientation;

    let r = step_move(&mut body, &world, press(false, true, false, false));
    assert_eq!(r, Ok(true));

    let got: Vec<(i32, i32)> = body
        .segments
        .iter()
        .map(|s| (s.position.x, s.position.y))
        .collect();
    assert_eq!(got, vec![(1, 0), (0, 0), (-1, 0), (-2, 0)]);

    assert_eq!(body.segments[1].orientation, old_head_orient);
    assert_eq!(body.segments[2].orientation, old_seg1_orient);
    assert_eq!(
        body.segments[0].orientation,
        Orientation { from: Direction::Left, to: Direction::Right }
    );
}

#[test]
fn blocked_move_is_a_full_noop() {
    let mut body = body_of(&[(0, 0), (-1, 0), (-2, 0), (-3, 0)]);
    let mut world = empty_world();
    world.obstacles.push(pos(1, 0));

    let r = step_move(&mut body, &world, press(false, true, false, false));
    assert_eq!(r, Err(SimError::IllegalMove));

    let got: Vec<(i32, i32)> = body
        .segments
        .iter()
        .map(|s| (s.position.x, s.position.y))
        .collect();
    assert_eq!(got, vec![(0, 0), (-1, 0), (-2, 0), (-3, 0)]);
    assert!(body.segments.iter().all(|s| s.transitions.is_empty()));
    assert!(body.segments.iter().all(|s| s.pending.is_empty()));
}

#[test]
fn opposing_presses_cancel_to_a_noop() {
    let mut body = body_of(&[(0, 0), (-1, 0)]);
    let world = empty_world();
    let r = step_move(&mut body, &world, press(true, true, false, false));
    assert_eq!(r, Ok(false));
    assert_eq!(body.segments[0].position, pos(0, 0));
}

#[test]
fn opposing_presses_cancel_axis_by_axis() {
    // Left and right cancel; the up press still moves the head up.
    let mut body = body_of(&[(0, 0), (-1, 0)]);
    let world = empty_world();
    let r = step_move(&mut body, &world, press(true, true, false, true));
    assert_eq!(r, Ok(true));
    assert_eq!(body.segments[0].position, pos(0, 1));
    assert_eq!(body.segments[0].orientation.to, Direction::Up);
    assert_eq!(body.segments[0].orientation.from, Direction::Down);
}

#[test]
fn length_two_tail_does_not_block() {
    // At length 2 the tail is excluded from the blocked set, so the head may
    // move into the tail's cell.
    let mut body = body_of(&[(0, 0), (-1, 0)]);
    let world = empty_world();
    let r = step_move(&mut body, &world, press(true, false, false, false));
    assert_eq!(r, Ok(true));
    assert_eq!(body.segments[0].position, pos(-1, 0));
    assert_eq!(body.segments[1].position, pos(0, 0));
}

#[test]
fn length_three_middle_and_tail_do_not_block() {
    let mut body = body_of(&[(0, 0), (0, 1), (-1, 1)]);
    let world = empty_world();
    // Proposed head cell is the middle segment's cell: allowed at length 3.
    let r = step_move(&mut body, &world, press(false, false, false, true));
    assert_eq!(r, Ok(true));
    assert_eq!(body.segments[0].position, pos(0, 1));
}

#[test]
fn length_four_inner_segment_blocks() {
    let mut body = body_of(&[(0, 0), (-1, 0), (-2, 0), (-3, 0)]);
    let world = empty_world();
    // Proposed head cell (-1, 0) is segment 1's cell: at length 4 the
    // segments 1 through len-3 block.
    let r = step_move(&mut body, &world, press(true, false, false, false));
    assert_eq!(r, Err(SimError::IllegalMove));
    assert_eq!(body.segments[0].position, pos(0, 0));
}

#[test]
fn length_four_tail_does_not_block() {
    // A square body whose tail is adjacent to the head: the tail and the
    // second-to-last segment are excluded from the blocked set.
    let mut body = body_of(&[(0, 0), (0, 1), (1, 1), (1, 0)]);
    let world = empty_world();
    let r = step_move(&mut body, &world, press(false, true, false, false));
    assert_eq!(r, Ok(true));
    assert_eq!(body.segments[0].position, pos(1, 0));
}

#[test]
fn neck_bend_forces_from_opposite_its_previous_to() {
    // The second segment's new orientation has `from` opposite to its own
    // previous `to`, and `to` from the intent.
    let mut body = SnakeBody {
        segments: vec![
            seg(0, 0, 0, Orientation { from: Direction::Down, to: Direction::Up }),
            seg(1, 0, -1, Orientation { from: Direction::Left, to: Direction::Up }),
        ],
        next_id: 2,
    };
    let world = empty_world();
    let r = step_move(&mut body, &world, press(false, true, false, false));
    assert_eq!(r, Ok(true));
    assert_eq!(
        body.segments[1].orientation,
        Orientation { from: Direction::Down, to: Direction::Right }
    );
    // The neck's bend was queued for the consumer.
    assert_eq!(body.segments[1].transitions.len(), 1);
    assert_eq!(
        body.segments[1].transitions[0].from,
        Orientation { from: Direction::Left, to: Direction::Up }
    );
    assert_eq!(body.segments[1].transitions[0].frame, 0);
}

#[test]
fn head_records_a_settled_transition() {
    let mut body = body_of(&[(0, 0), (-1, 0)]);
    let world = empty_world();
    let r = step_move(&mut body, &world, press(false, false, false, true));
    assert_eq!(r, Ok(true));
    assert_eq!(body.segments[0].transitions.len(), 1);
    assert_eq!(body.segments[0].transitions[0].frame, 4);
    assert_eq!(
        body.segments[0].orientation,
        Orientation { from: Direction::Down, to: Direction::Up }
    );
    // Each moved segment queues its new target position.
    assert_eq!(body.segments[0].pending.len(), 1);
    assert_eq!(body.segments[0].pending[0], pos(0, 1));
    assert_eq!(body.segments[1].pending[0], pos(0, 0));
}

#[test]
fn empty_body_move_is_a_noop() {
    let mut body = SnakeBody { segments: Vec::new(), next_id: 0 };
    let world = empty_world();
    let r = step_move(&mut body, &world, press(false, true, false, false));
    assert_eq!(r, Ok(false));
    assert_eq!(body.segments.len(), 0);
}
