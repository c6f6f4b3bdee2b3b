use taileater::body::{Segment, SnakeBody};
use taileater::gravity::{apply_gravity, GRAVITY_SCAN_LIMIT};
use taileater::grid::{Direction, GridPosition, GridWorld, Orientation};
use taileater::growth::{apply_food, apply_poison};

fn pos(x: i32, y: i32) -> GridPosition {
    GridPosition { x, y }
}

fn orient(from: Direction, to: Direction) -> Orientation {
    Orientation { from, to }
}

fn seg(id: u64, x: i32, y: i32, o: Orientation) -> Segment {
    Segment { id, position: pos(x, y), orientation: o, transitions: Vec::new(), pending: Vec::new() }
}

fn body_of(positions: &[(i32, i32)]) -> SnakeBody {
    let segments: Vec<Segment> = positions
        .iter()
        .enumerate()
        .map(|(i, &(x, y))| seg(i as u64, x, y, orient(Direction::Left, Direction::Right)))
        .collect();
    let next_id = segments.len() as u64;
    SnakeBody { segments, next_id }
}

fn world_with(
    obstacles: &[(i32, i32)],
    foods: &[(i32, i32)],
    poisons: &[(i32, i32)],
) -> GridWorld {
    GridWorld {
        obstacles: obstacles.iter().map(|&(x, y)| pos(x, y)).collect(),
        foods: foods.iter().map(|&(x, y)| pos(x, y)).collect(),
        poisons: poisons.iter().map(|&(x, y)| pos(x, y)).collect(),
    }
}

#[test]
fn food_splices_before_the_former_tail() {
    let mut body = body_of(&[(0, 0), (-1, 0)]);
    let mut world = world_with(&[], &[(0, 0)], &[]);
    let ate = apply_food(&mut body, &mut world);
    assert!(ate);
    assert_eq!(body.segments.len(), 3);
    // The new segment sits at index 1, immediately before the former tail,
    // at the tail's cell.
    assert_eq!(body.segments[1].position, pos(-1, 0));
    assert_eq!(body.segments[1].id, 2);
    assert_eq!(body.segments[2].position, pos(-1, 0));
    assert_eq!(body.segments[2].id, 1);
    assert!(world.foods.is_empty());
    // The new segment animates in: one pending position, no transitions.
    assert_eq!(body.segments[1].pending, vec![pos(-1, 0)]);
    assert!(body.segments[1].transitions.is_empty());
}

#[test]
fn food_on_a_single_segment_grows_at_index_one() {
    let mut body = body_of(&[(3, 3)]);
    let mut world = world_with(&[], &[(3, 3)], &[]);
    let ate = apply_food(&mut body, &mut world);
    assert!(ate);
    assert_eq!(body.segments.len(), 2);
    assert_eq!(body.segments[0].id, 0);
    assert_eq!(body.segments[1].id, 1);
    assert_eq!(body.segments[1].position, pos(3, 3));
}

#[test]
fn no_food_at_head_is_a_noop() {
    let mut body = body_of(&[(0, 0), (-1, 0)]);
    let mut world = world_with(&[], &[(5, 5)], &[]);
    let ate = apply_food(&mut body, &mut world);
    assert!(!ate);
    assert_eq!(body.segments.len(), 2);
    assert_eq!(world.foods.len(), 1);
}

#[test]
fn poison_removes_second_to_last_and_tail_inherits() {
    let mut body = SnakeBody {
        segments: vec![
            seg(0, 0, 0, orient(Direction::Left, Direction::Right)),
            seg(1, -1, 0, orient(Direction::Left, Direction::Right)),
            seg(2, -2, 0, orient(Direction::Down, Direction::Right)),
            seg(3, -2, -1, orient(Direction::Down, Direction::Up)),
        ],
        next_id: 4,
    };
    let mut world = world_with(&[], &[], &[(0, 0)]);
    let ate = apply_poison(&mut body, &mut world);
    assert!(ate);
    assert_eq!(body.segments.len(), 3);
    // The segment at index len-2 (id 2) is gone; the surviving tail (id 3)
    // inherits its position and orientation.
    let ids: Vec<u64> = body.segments.iter().map(|s| s.id).collect();
    assert_eq!(ids, vec![0, 1, 3]);
    assert_eq!(body.segments[2].position, pos(-2, 0));
    assert_eq!(body.segments[2].orientation, orient(Direction::Down, Direction::Right));
    // The change animates: the old tail queued a transition and a position.
    assert_eq!(body.segments[2].transitions.len(), 1);
    assert_eq!(
        body.segments[2].transitions[0].from,
        orient(Direction::Down, Direction::Up)
    );
    assert_eq!(
        body.segments[2].transitions[0].to,
        orient(Direction::Down, Direction::Right)
    );
    assert_eq!(body.segments[2].pending, vec![pos(-2, 0)]);
    assert!(world.poisons.is_empty());
}

#[test]
fn poison_at_length_two_removes_the_tail() {
    let mut body = body_of(&[(0, 0), (-1, 0)]);
    let mut world = world_with(&[], &[], &[(0, 0)]);
    let ate = apply_poison(&mut body, &mut world);
    assert!(ate);
    assert_eq!(body.segments.len(), 1);
    assert_eq!(body.segments[0].id, 0);
    assert_eq!(body.segments[0].position, pos(0, 0));
}

#[test]
fn poison_at_length_one_empties_the_body() {
    let mut body = body_of(&[(0, 0)]);
    let mut world = world_with(&[], &[], &[(0, 0)]);
    let ate = apply_poison(&mut body, &mut world);
    assert!(ate);
    assert_eq!(body.segments.len(), 0);
}

#[test]
fn gravity_drops_by_the_shared_empty_gap() {
    // Three segments, each exactly 3 empty cells above the nearest obstacle.
    let mut body = body_of(&[(0, 4), (1, 4), (2, 4)]);
    let world = world_with(&[(0, 0), (1, 0), (2, 0)], &[], &[]);
    let shift = apply_gravity(&mut body, &world);
    assert_eq!(shift, 3);
    let got: Vec<(i32, i32)> = body
        .segments
        .iter()
        .map(|s| (s.position.x, s.position.y))
        .collect();
    assert_eq!(got, vec![(0, 1), (1, 1), (2, 1)]);
    // One queued position per segment, for one smooth drop.
    assert!(body.segments.iter().all(|s| s.pending.len() == 1));
}

#[test]
fn resting_body_does_not_fall() {
    let mut body = body_of(&[(0, 1), (1, 1)]);
    let world = world_with(&[(0, 0), (1, 0)], &[], &[]);
    let shift = apply_gravity(&mut body, &world);
    assert_eq!(shift, 0);
    assert_eq!(body.segments[0].position, pos(0, 1));
    assert!(body.segments.iter().all(|s| s.pending.is_empty()));
}

#[test]
fn one_landing_segment_stops_the_whole_body() {
    // The rigid body falls by the minimum distance across its segments.
    let mut body = body_of(&[(0, 5), (1, 2)]);
    let world = world_with(&[(0, 0), (1, 0)], &[], &[]);
    let shift = apply_gravity(&mut body, &world);
    assert_eq!(shift, 1);
    assert_eq!(body.segments[0].position, pos(0, 4));
    assert_eq!(body.segments[1].position, pos(1, 1));
}

#[test]
fn fall_is_capped_at_the_scan_limit() {
    let mut body = body_of(&[(0, 0)]);
    let world = world_with(&[], &[], &[]);
    let shift = apply_gravity(&mut body, &world);
    assert_eq!(shift, GRAVITY_SCAN_LIMIT);
    assert_eq!(body.segments[0].position, pos(0, -(GRAVITY_SCAN_LIMIT as i32)));
}
