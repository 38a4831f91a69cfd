use block_drop::geometry::Position;
use block_drop::grid::BlockGrid;
use block_drop::values::{Block, Color, PositionedBlock};

fn at(x: i8, y: i8) -> Position {
    Position { x, y }
}

fn rest(id: u128) -> Block {
    Block::with_id(id, Color::Red).resting()
}

#[test]
fn new_grid_is_empty() {
    let grid = BlockGrid::new(6, 13);
    assert_eq!(grid.width(), 6);
    assert_eq!(grid.height(), 13);
    for x in 0..6 {
        for y in 0..13 {
            assert!(grid.empty(at(x, y)));
            assert_eq!(grid.get(at(x, y)), None);
        }
    }
}

#[test]
fn sides_and_floor_are_never_empty() {
    let grid = BlockGrid::new(6, 13);
    assert!(!grid.empty(at(-1, 5)));
    assert!(!grid.empty(at(6, 5)));
    assert!(!grid.empty(at(100, 5)));
    assert!(!grid.empty(at(2, -1)));
    assert!(!grid.empty(at(6, 20)));
}

#[test]
fn rows_above_the_top_are_empty() {
    let grid = BlockGrid::new(6, 13);
    assert!(grid.empty(at(0, 13)));
    assert!(grid.empty(at(5, 127)));
}

#[test]
fn set_writes_and_clears_one_cell() {
    let mut grid = BlockGrid::new(6, 13);
    grid.set(at(2, 0), Some(rest(1)));
    assert!(!grid.empty(at(2, 0)));
    assert_eq!(grid.get(at(2, 0)), Some(rest(1)));
    assert!(grid.empty(at(2, 1)));
    assert!(grid.empty(at(1, 0)));
    assert!(grid.empty(at(3, 0)));
    grid.set(at(2, 0), None);
    assert!(grid.empty(at(2, 0)));
    assert_eq!(grid.get(at(2, 0)), None);
}

#[test]
fn set_outside_the_grid_changes_nothing() {
    let mut grid = BlockGrid::new(6, 13);
    grid.set(at(-1, 0), Some(rest(1)));
    grid.set(at(6, 0), Some(rest(2)));
    grid.set(at(0, -1), Some(rest(3)));
    grid.set(at(0, 13), Some(rest(4)));
    for x in 0..6 {
        for y in 0..13 {
            assert!(grid.empty(at(x, y)));
        }
    }
    assert_eq!(grid.get(at(0, 13)), None);
    assert_eq!(grid.get(at(-1, 0)), None);
    assert!(grid.empty(at(0, 13)));
}

#[test]
fn bottom_falls_to_the_floor_of_an_empty_column() {
    let grid = BlockGrid::new(6, 13);
    let block = Block::with_id(7, Color::Blue);
    let rested = grid.bottom(PositionedBlock::new(block, at(4, 12)));
    assert_eq!(rested, PositionedBlock::new(block, at(4, 0)));
}

#[test]
fn bottom_rests_on_an_occupied_cell() {
    let mut grid = BlockGrid::new(6, 13);
    grid.set(at(2, 0), Some(rest(1)));
    let block = Block::with_id(7, Color::Blue);
    let rested = grid.bottom(PositionedBlock::new(block, at(2, 5)));
    assert_eq!(rested.position, at(2, 1));
    assert_eq!(rested.block, block);
}

#[test]
fn bottom_stops_at_the_first_obstacle_on_the_way() {
    let mut grid = BlockGrid::new(6, 13);
    grid.set(at(2, 3), Some(rest(1)));
    let block = Block::with_id(7, Color::Blue);
    assert_eq!(grid.bottom(PositionedBlock::new(block, at(2, 5))).position, at(2, 4));
    assert_eq!(grid.bottom(PositionedBlock::new(block, at(2, 2))).position, at(2, 0));
    assert_eq!(grid.bottom(PositionedBlock::new(block, at(3, 5))).position, at(3, 0));
}

#[test]
fn bottom_stays_put_where_nothing_is_below() {
    let mut grid = BlockGrid::new(6, 13);
    grid.set(at(1, 0), Some(rest(1)));
    let block = Block::with_id(7, Color::Blue);
    assert_eq!(grid.bottom(PositionedBlock::new(block, at(0, 0))).position, at(0, 0));
    assert_eq!(grid.bottom(PositionedBlock::new(block, at(1, 1))).position, at(1, 1));
    assert_eq!(grid.bottom(PositionedBlock::new(block, at(0, -3))).position, at(0, -3));
    assert_eq!(grid.bottom(PositionedBlock::new(block, at(-1, 4))).position, at(-1, 4));
    assert_eq!(grid.bottom(PositionedBlock::new(block, at(6, 4))).position, at(6, 4));
}

#[test]
fn bottom_from_above_the_top_falls_in() {
    let grid = BlockGrid::new(6, 13);
    let block = Block::with_id(7, Color::Blue);
    assert_eq!(grid.bottom(PositionedBlock::new(block, at(3, 40))).position, at(3, 0));
}

#[test]
fn bottom_twice_is_bottom_once() {
    let mut grid = BlockGrid::new(6, 13);
    grid.set(at(2, 0), Some(rest(1)));
    grid.set(at(2, 1), Some(rest(2)));
    grid.set(at(4, 6), Some(rest(3)));
    let block = Block::with_id(7, Color::Blue);
    for x in -1..7 {
        for y in -1..15 {
            let once = grid.bottom(PositionedBlock::new(block, at(x, y)));
            let twice = grid.bottom(once);
            assert_eq!(once, twice);
        }
    }
}

#[test]
fn can_fall_looks_one_row_down() {
    let mut grid = BlockGrid::new(6, 13);
    grid.set(at(2, 0), Some(rest(1)));
    assert!(grid.can_fall(at(3, 1)));
    assert!(!grid.can_fall(at(3, 0)));
    assert!(!grid.can_fall(at(2, 1)));
    assert!(grid.can_fall(at(2, 2)));
}

#[test]
fn in_bounds_is_about_columns_and_the_floor() {
    let grid = BlockGrid::new(6, 13);
    assert!(grid.in_bounds(at(0, 0)));
    assert!(grid.in_bounds(at(5, 12)));
    assert!(grid.in_bounds(at(5, 100)));
    assert!(!grid.in_bounds(at(6, 0)));
    assert!(!grid.in_bounds(at(-1, 0)));
    assert!(!grid.in_bounds(at(0, -1)));
}
