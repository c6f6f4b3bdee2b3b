use taileater::grid::{Direction, GridPosition};
use taileater::level::{build_level, LevelEntry, LevelTag};

fn pos(x: i32, y: i32) -> GridPosition {
    GridPosition { x, y }
}

fn entry(x: i32, y: i32, tag: LevelTag) -> LevelEntry {
    LevelEntry { position: pos(x, y), tag }
}

#[test]
fn tags_are_sorted_into_their_indices() {
    let entries = vec![
        entry(0, 0, LevelTag::Ground),
        entry(4, 2, LevelTag::Food),
        entry(1, 0, LevelTag::Ground),
        entry(0, 1, LevelTag::SnakeSegment),
        entry(5, 2, LevelTag::Poison),
        entry(1, 1, LevelTag::SnakeSegment),
    ];
    let s = build_level(&entries);
    assert_eq!(s.world.obstacles, vec![pos(0, 0), pos(1, 0)]);
    assert_eq!(s.world.foods, vec![pos(4, 2)]);
    assert_eq!(s.world.poisons, vec![pos(5, 2)]);
    assert_eq!(s.body.segments.len(), 2);
    assert!(s.history.is_empty());
    assert!(!s.won);
}

#[test]
fn duplicate_cells_enter_each_index_once() {
    let entries = vec![
        entry(0, 0, LevelTag::Ground),
        entry(0, 0, LevelTag::Ground),
        entry(2, 2, LevelTag::Food),
        entry(2, 2, LevelTag::Food),
    ];
    let s = build_level(&entries);
    assert_eq!(s.world.obstacles.len(), 1);
    assert_eq!(s.world.foods.len(), 1);
}

#[test]
fn body_order_is_inferred_by_descending_x() {
    // The rightmost cell is taken for the head — the documented heuristic.
    let entries = vec![
        entry(0, 1, LevelTag::SnakeSegment),
        entry(2, 1, LevelTag::SnakeSegment),
        entry(1, 1, LevelTag::SnakeSegment),
    ];
    let s = build_level(&entries);
    let got: Vec<(i32, i32)> = s
        .body
        .segments
        .iter()
        .map(|g| (g.position.x, g.position.y))
        .collect();
    assert_eq!(got, vec![(2, 1), (1, 1), (0, 1)]);
    let ids: Vec<u64> = s.body.segments.iter().map(|g| g.id).collect();
    assert_eq!(ids, vec![0, 1, 2]);
    assert_eq!(s.body.next_id, 3);
    for seg in s.body.segments.iter() {
        assert_eq!(seg.orientation.from, Direction::Left);
        assert_eq!(seg.orientation.to, Direction::Right);
        assert!(seg.transitions.is_empty());
        assert!(seg.pending.is_empty());
    }
}

#[test]
fn an_empty_level_builds_an_empty_state() {
    let entries: Vec<LevelEntry> = Vec::new();
    let s = build_level(&entries);
    assert!(s.body.segments.is_empty());
    assert!(s.world.obstacles.is_empty());
    assert!(s.world.foods.is_empty());
    assert!(s.world.poisons.is_empty());
}
