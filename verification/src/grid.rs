//! Grid cells and headings: the value types every other module builds on.

use vstd::prelude::*;

verus! {

/// Number of grid cells along the horizontal axis.
pub const GRID_SIZE_X: u16 = 20;

/// Number of grid cells along the vertical axis.
pub const GRID_SIZE_Y: u16 = 20;

/// Side length of one grid cell in pixels, for the rendering layer.
pub const TILE_SIZE: u16 = 30;

/// A heading the snake can face. Only the opposite-of relation is defined
/// between headings; there is no order among them.
#[derive(Eq, PartialEq, Copy, Clone, Debug, Structural)]
pub enum Direction {
    Up,
    Down,
    Left,
    Right,
}

/// True iff `b` is the reverse heading of `a`, per the fixed pairing
/// Up/Down and Left/Right.
pub open spec fn is_opposite(a: Direction, b: Direction) -> bool {
    match a {
        Direction::Up => b is Down,
        Direction::Down => b is Up,
        Direction::Left => b is Right,
        Direction::Right => b is Left,
    }
}

impl Direction {
    /// Decides the opposite-of relation: true iff `b` is the exact reverse
    /// heading of `a`.
    pub fn opposite(a: Direction, b: Direction) -> (r: bool)
        ensures
            r == is_opposite(a, b),
    {
        match a {
            Direction::Up => b == Direction::Down,
            Direction::Down => b == Direction::Up,
            Direction::Left => b == Direction::Right,
            Direction::Right => b == Direction::Left,
        }
    }
}

/// A grid cell coordinate pair. Coordinates are unbounded in representation:
/// the nominal grid bounds are a placement and rendering convention only,
/// never enforced on the snake body.
#[derive(Copy, Clone, Debug, Eq, PartialEq, Structural)]
pub struct GridPosition {
    pub x: i32,
    pub y: i32,
}

impl GridPosition {
    /// Builds the cell at the given coordinates.
    pub fn new(x: i32, y: i32) -> (p: GridPosition)
        ensures
            p.x == x,
            p.y == y,
    {
        GridPosition { x, y }
    }
}

/// True iff `p` lies on the nominal grid: both coordinates in
/// `[0, GRID_SIZE_X)` and `[0, GRID_SIZE_Y)` respectively. Food is always
/// placed on the nominal grid; the snake is free to leave it.
pub open spec fn in_grid(p: GridPosition) -> bool {
    &&& 0 <= p.x < GRID_SIZE_X
    &&& 0 <= p.y < GRID_SIZE_Y
}

/// Unit displacement along the horizontal axis for a heading:
/// Left is -1, Right is +1, vertical headings move 0.
pub open spec fn delta_x(d: Direction) -> int {
    match d {
        Direction::Left => -1,
        Direction::Right => 1,
        _ => 0,
    }
}

/// Unit displacement along the vertical axis for a heading:
/// Up is -1, Down is +1, horizontal headings move 0.
pub open spec fn delta_y(d: Direction) -> int {
    match d {
        Direction::Up => -1,
        Direction::Down => 1,
        _ => 0,
    }
}

/// The cell one unit away from `p` in heading `d`. The coordinate casts are
/// exact whenever the displaced coordinates fit in `i32`, which every caller
/// in this library requires.
pub open spec fn moved(p: GridPosition, d: Direction) -> GridPosition {
    GridPosition { x: (p.x + delta_x(d)) as i32, y: (p.y + delta_y(d)) as i32 }
}

} // verus!
