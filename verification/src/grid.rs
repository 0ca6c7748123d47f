//! The coordinate space: grid cells, headings, and unit steps.

use vstd::prelude::*;

verus! {

/// Number of cells along each axis of the square playing field. Only food
/// placement is confined to the field; the snake itself may leave it.
pub const GRID_SIZE: i32 = 28;

/// A cell of the integer grid. Equality is exact integer comparison.
#[derive(Clone, Copy, Debug, PartialEq, Eq, Structural)]
pub struct Position {
    pub x: i32,
    pub y: i32,
}

/// Heading of the snake; there is no stopped state.
#[derive(Clone, Copy, Debug, PartialEq, Eq, Structural)]
pub enum Direction {
    Up,
    Down,
    Left,
    Right,
}

impl Direction {
    /// The heading that would reverse this one.
    pub open spec fn opposite(self) -> Direction {
        match self {
            Direction::Up => Direction::Down,
            Direction::Down => Direction::Up,
            Direction::Left => Direction::Right,
            Direction::Right => Direction::Left,
        }
    }

    /// Horizontal component of a unit step along this heading.
    pub open spec fn dx(self) -> int {
        match self {
            Direction::Left => -1,
            Direction::Right => 1,
            _ => 0,
        }
    }

    /// Vertical component of a unit step along this heading: up is +y.
    pub open spec fn dy(self) -> int {
        match self {
            Direction::Up => 1,
            Direction::Down => -1,
            _ => 0,
        }
    }
}

impl Position {
    /// Whether this cell lies on the playing field.
    pub open spec fn in_grid(self) -> bool {
        0 <= self.x < GRID_SIZE && 0 <= self.y < GRID_SIZE
    }

    /// Whether this cell lies on the playing field.
    pub fn is_in_grid(&self) -> (r: bool)
        ensures
            r == self.in_grid(),
    {
        0 <= self.x && self.x < GRID_SIZE && 0 <= self.y && self.y < GRID_SIZE
    }

    /// Whether a unit step from this cell along `d` stays within `i32`.
    pub open spec fn step_fits(self, d: Direction) -> bool {
        i32::MIN <= self.x + d.dx() <= i32::MAX && i32::MIN <= self.y + d.dy() <= i32::MAX
    }

    /// The cell one unit step away along `d`; meaningful when the step stays
    /// within `i32` (see `step_fits`).
    pub open spec fn stepped(self, d: Direction) -> Position {
        Position { x: (self.x + d.dx()) as i32, y: (self.y + d.dy()) as i32 }
    }

    /// Move one cell along `d`: no wrap-around, no bounds clamp.
    pub fn step(self, d: Direction) -> (r: Position)
        requires
            self.step_fits(d),
        ensures
            r == self.stepped(d),
    {
        match d {
            Direction::Up => Position { x: self.x, y: self.y + 1 },
            Direction::Down => Position { x: self.x, y: self.y - 1 },
            Direction::Left => Position { x: self.x - 1, y: self.y },
            Direction::Right => Position { x: self.x + 1, y: self.y },
        }
    }
}

} // verus!
