use taileater::body::{Segment, SnakeBody};
use taileater::grid::{Direction, DirectionPresses, GridPosition, GridWorld, Orientation, SimError};
use taileater::level::{build_level, LevelEntry, LevelTag};
use taileater::sim::{SimState, TickInput};

fn pos(x: i32, y: i32) -> GridPosition {
    GridPosition { x, y }
}

fn entry(x: i32, y: i32, tag: LevelTag) -> LevelEntry {
    LevelEntry { position: pos(x, y), tag }
}

fn move_right() -> TickInput {
    TickInput::Move(DirectionPresses { left: false, right: true, down: false, up: false })
}

fn positions_of(s: &SimState) -> Vec<(i32, i32)> {
    s.body.segments.iter().map(|g| (g.position.x, g.position.y)).collect()
}

/// A corridor: ground at y = 0 under x in -5..=5, the body on top of it.
fn corridor(foods: &[(i32, i32)], poisons: &[(i32, i32)]) -> SimState {
    let mut entries: Vec<LevelEntry> = Vec::new();
    for x in -5..=5 {
        entries.push(entry(x, 0, LevelTag::Ground));
    }
    entries.push(entry(0, 1, LevelTag::SnakeSegment));
    entries.push(entry(-1, 1, LevelTag::SnakeSegment));
    for &(x, y) in foods {
        entries.push(entry(x, y, LevelTag::Food));
    }
    for &(x, y) in poisons {
        entries.push(entry(x, y, LevelTag::Poison));
    }
    build_level(&entries)
}

#[test]
fn length_accounting_over_ticks() {
    // Food at the head's own cell: the next tick eats it and the body grows
    // by exactly one; a later poison tick shrinks it by one.
    let mut s = corridor(&[(0, 1)], &[(1, 1)]);
    assert_eq!(s.body.segments.len(), 2);

    let r = s.tick(TickInput::Idle, false);
    assert!(r.ate_food);
    assert!(!r.ate_poison);
    assert_eq!(s.body.segments.len(), 3);

    // Move onto the poison cell; the next tick consumes it.
    let r = s.tick(move_right(), false);
    assert!(r.moved);
    assert_eq!(s.body.segments.len(), 3);
    let r = s.tick(TickInput::Idle, false);
    assert!(r.ate_poison);
    assert_eq!(s.body.segments.len(), 2);
}

#[test]
fn undo_restores_the_bootstrap_field_for_field() {
    let mut s = corridor(&[(3, 1)], &[]);
    let initial_positions = positions_of(&s);
    let initial_orientations: Vec<Orientation> =
        s.body.segments.iter().map(|g| g.orientation).collect();
    let initial_foods = s.world.foods.clone();
    let initial_poisons = s.world.poisons.clone();

    // Two accepted moves, each settled by an idle tick that captures it.
    let r = s.tick(move_right(), false);
    assert!(r.captured && r.moved);
    let r = s.tick(TickInput::Idle, false);
    assert!(r.captured);
    let r = s.tick(move_right(), false);
    assert!(!r.captured && r.moved);
    let r = s.tick(TickInput::Idle, false);
    assert!(r.captured);
    assert_eq!(positions_of(&s), vec![(2, 1), (1, 1)]);
    assert_eq!(s.history.len(), 3);

    // Two undos walk back through the snapshots.
    let r = s.tick(TickInput::Undo, false);
    assert!(r.undone);
    assert_eq!(positions_of(&s), vec![(1, 1), (0, 1)]);
    let r = s.tick(TickInput::Undo, false);
    assert!(r.undone);

    assert_eq!(positions_of(&s), initial_positions);
    let restored_orientations: Vec<Orientation> =
        s.body.segments.iter().map(|g| g.orientation).collect();
    assert_eq!(restored_orientations, initial_orientations);
    assert_eq!(s.world.foods, initial_foods);
    assert_eq!(s.world.poisons, initial_poisons);
    assert_eq!(s.history.len(), 1);

    // A further undo is a no-op.
    let r = s.tick(TickInput::Undo, false);
    assert!(!r.undone);
    assert_eq!(positions_of(&s), initial_positions);
    assert_eq!(s.history.len(), 1);
}

#[test]
fn reset_truncates_to_the_bootstrap() {
    let mut s = corridor(&[(3, 1)], &[]);
    let initial_positions = positions_of(&s);
    let initial_foods = s.world.foods.clone();

    for _ in 0..3 {
        s.tick(move_right(), false);
        s.tick(TickInput::Idle, false);
    }
    assert_eq!(s.history.len(), 4);

    let r = s.tick(TickInput::Reset, false);
    assert!(r.was_reset);
    assert_eq!(s.history.len(), 1);
    assert_eq!(positions_of(&s), initial_positions);
    assert_eq!(s.world.foods, initial_foods);
}

#[test]
fn undo_command_reports_underflow() {
    let mut s = corridor(&[], &[]);
    // Nothing captured yet: undo underflows and changes nothing.
    assert_eq!(s.undo(), Err(SimError::UndoUnderflow));
    s.tick(move_right(), false);
    assert_eq!(s.history.len(), 1);
    // Only the bootstrap: still an underflow.
    assert_eq!(s.undo(), Err(SimError::UndoUnderflow));
    s.tick(TickInput::Idle, false);
    assert_eq!(s.history.len(), 2);
    assert_eq!(s.undo(), Ok(()));
    assert_eq!(s.history.len(), 1);
}

#[test]
fn missing_segment_lookup_is_reported() {
    let s = corridor(&[], &[]);
    assert!(s.body.index_of_id(0).is_ok());
    assert_eq!(s.body.index_of_id(999), Err(SimError::MissingSegmentLookup));
}

fn win_ring() -> SimState {
    // A five-segment body bent in a square; moving right brings the head
    // into the tail's cell. Obstacles right below keep gravity at zero.
    let cells = [(0, 0), (0, 1), (1, 1), (1, 0), (2, 0)];
    let segments: Vec<Segment> = cells
        .iter()
        .enumerate()
        .map(|(i, &(x, y))| Segment {
            id: i as u64,
            position: pos(x, y),
            orientation: Orientation { from: Direction::Left, to: Direction::Right },
            transitions: Vec::new(),
            pending: Vec::new(),
        })
        .collect();
    SimState {
        body: SnakeBody { segments, next_id: 5 },
        world: GridWorld {
            obstacles: vec![pos(0, -1), pos(1, -1), pos(2, -1)],
            foods: Vec::new(),
            poisons: Vec::new(),
        },
        history: Vec::new(),
        won: false,
    }
}

#[test]
fn win_fires_on_the_tick_the_head_reaches_the_tail() {
    let mut s = win_ring();
    // Prior tick: no coincidence, no win, settled or not.
    let r = s.tick(TickInput::Idle, true);
    assert!(!r.won);
    assert!(!s.won);

    let r = s.tick(move_right(), true);
    assert!(r.moved);
    assert!(r.won);
    assert!(s.won);
}

#[test]
fn win_waits_for_the_settled_signal() {
    let mut s = win_ring();
    // The winning move arrives mid-flight: grid coincidence alone is not a
    // win.
    let r = s.tick(move_right(), false);
    assert!(r.moved);
    assert!(!r.won);
    // The interpolation consumer settles one tick later.
    let r = s.tick(TickInput::Idle, true);
    assert!(r.won);
    assert!(s.won);
}

#[test]
fn growth_precedes_movement_within_a_tick() {
    // Food at the head's cell and a movement intent in the same tick: the
    // splice happens first, then the grown body moves.
    let mut s = corridor(&[(0, 1)], &[]);
    let r = s.tick(move_right(), false);
    assert!(r.ate_food && r.moved);
    assert_eq!(positions_of(&s), vec![(1, 1), (0, 1), (-1, 1)]);
}

#[test]
fn food_and_poison_on_one_cell_cancel_out() {
    let mut entries: Vec<LevelEntry> = Vec::new();
    entries.push(entry(0, 0, LevelTag::Ground));
    entries.push(entry(0, 1, LevelTag::SnakeSegment));
    entries.push(entry(0, 1, LevelTag::Food));
    entries.push(entry(0, 1, LevelTag::Poison));
    let mut s = build_level(&entries);
    assert_eq!(s.body.segments.len(), 1);
    let r = s.tick(TickInput::Idle, false);
    assert!(r.ate_food && r.ate_poison);
    assert_eq!(s.body.segments.len(), 1);
}

#[test]
fn gravity_still_runs_on_a_blocked_tick() {
    // The body hangs one cell above ground with a wall ahead: the rejected
    // move mutates nothing, but the gravity phase still settles the body.
    let entries = vec![
        entry(0, 0, LevelTag::Ground),
        entry(-1, 0, LevelTag::Ground),
        entry(1, 2, LevelTag::Ground),
        entry(0, 2, LevelTag::SnakeSegment),
        entry(-1, 2, LevelTag::SnakeSegment),
    ];
    let mut s = build_level(&entries);
    let r = s.tick(move_right(), false);
    assert!(r.blocked);
    assert_eq!(r.fall, 1);
    assert_eq!(positions_of(&s), vec![(0, 1), (-1, 1)]);
}

#[test]
fn won_flag_stays_latched() {
    let mut s = win_ring();
    let r = s.tick(move_right(), true);
    assert!(r.won);
    let r = s.tick(TickInput::Idle, false);
    assert!(r.won);
    assert!(s.won);
}

#[test]
fn blocked_tick_reports_and_keeps_state() {
    let mut entries: Vec<LevelEntry> = Vec::new();
    for x in -5..=5 {
        entries.push(entry(x, 0, LevelTag::Ground));
    }
    entries.push(entry(1, 1, LevelTag::Ground));
    entries.push(entry(0, 1, LevelTag::SnakeSegment));
    entries.push(entry(-1, 1, LevelTag::SnakeSegment));
    let mut s = build_level(&entries);

    let r = s.tick(move_right(), false);
    assert!(r.blocked);
    assert!(!r.moved);
    assert_eq!(positions_of(&s), vec![(0, 1), (-1, 1)]);
}
