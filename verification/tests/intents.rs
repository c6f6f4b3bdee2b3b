use taileater::body::{Segment, SnakeBody};
use taileater::grid::{
    opposite, press_delta, Direction, DirectionPresses, GridPosition, GridWorld, Orientation,
};
use taileater::history::{capture, restore_body, restore_world};

fn press(left: bool, right: bool, down: bool, up: bool) -> DirectionPresses {
    DirectionPresses { left, right, down, up }
}

#[test]
fn opposite_flips_each_direction() {
    assert_eq!(opposite(Direction::Up), Direction::Down);
    assert_eq!(opposite(Direction::Down), Direction::Up);
    assert_eq!(opposite(Direction::Left), Direction::Right);
    assert_eq!(opposite(Direction::Right), Direction::Left);
}

#[test]
fn presses_add_into_a_delta() {
    assert_eq!(press_delta(press(false, true, false, false)), (1, 0));
    assert_eq!(press_delta(press(true, false, false, false)), (-1, 0));
    assert_eq!(press_delta(press(false, false, true, false)), (0, -1));
    assert_eq!(press_delta(press(false, false, false, true)), (0, 1));
    // Opposing presses in one tick cancel to a net-zero delta.
    assert_eq!(press_delta(press(true, true, false, false)), (0, 0));
    assert_eq!(press_delta(press(true, true, true, true)), (0, 0));
    assert_eq!(press_delta(press(true, false, false, true)), (-1, 1));
}

#[test]
fn snapshot_roundtrip_restores_positions_and_sets() {
    let body = SnakeBody {
        segments: vec![
            Segment {
                id: 7,
                position: GridPosition { x: 2, y: 3 },
                orientation: Orientation { from: Direction::Down, to: Direction::Right },
                transitions: Vec::new(),
                pending: vec![GridPosition { x: 2, y: 3 }],
            },
            Segment {
                id: 9,
                position: GridPosition { x: 1, y: 3 },
                orientation: Orientation { from: Direction::Left, to: Direction::Right },
                transitions: Vec::new(),
                pending: Vec::new(),
            },
        ],
        next_id: 10,
    };
    let world = GridWorld {
        obstacles: vec![GridPosition { x: 0, y: 0 }],
        foods: vec![GridPosition { x: 4, y: 4 }],
        poisons: vec![GridPosition { x: 5, y: 5 }],
    };

    let snap = capture(&body, &world);
    let restored = restore_body(&snap);

    assert_eq!(restored.segments.len(), 2);
    for (a, b) in restored.segments.iter().zip(body.segments.iter()) {
        assert_eq!(a.position, b.position);
        assert_eq!(a.orientation, b.orientation);
        // The rebuild is destructive: queues start afresh, with the one
        // settled transition kept for replay.
        assert!(a.pending.is_empty());
        assert_eq!(a.transitions.len(), 1);
        assert_eq!(a.transitions[0].frame, 4);
    }
    // Ids are issued anew.
    assert_eq!(restored.segments[0].id, 0);
    assert_eq!(restored.segments[1].id, 1);

    let mut target = GridWorld {
        obstacles: vec![GridPosition { x: 0, y: 0 }],
        foods: Vec::new(),
        poisons: Vec::new(),
    };
    restore_world(&snap, &mut target);
    assert_eq!(target.foods, world.foods);
    assert_eq!(target.poisons, world.poisons);
    assert_eq!(target.obstacles, world.obstacles);
}
