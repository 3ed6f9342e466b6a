//! The ant's four-valued orientation and the turn table of the canonical rule.

use vstd::prelude::*;

verus! {

/// The orientation of the ant. The clockwise cycle is Up, Right, Down, Left,
/// and the ordinals are Up = 0, Right = 1, Down = 2, Left = 3.
#[derive(Clone, Copy, Debug, PartialEq, Eq, Structural)]
pub enum Direction {
    Up,
    Right,
    Down,
    Left,
}

/// The color of a white cell.
pub const WHITE: u8 = 0;

/// The color of a black cell.
pub const BLACK: u8 = 1;

/// A cell color is white (0) or black (1).
pub open spec fn is_color(c: u8) -> bool {
    c == WHITE || c == BLACK
}

/// The other color.
pub open spec fn flipped(c: u8) -> u8 {
    if c == WHITE {
        BLACK
    } else {
        WHITE
    }
}

/// The turn table: on a white cell turn a quarter clockwise, on a black one
/// a quarter counter-clockwise. The color is the one before the cell is toggled.
pub open spec fn turned(color: u8, d: Direction) -> Direction {
    if color == WHITE {
        d.clockwise()
    } else {
        d.counter_clockwise()
    }
}

impl Direction {
    /// The fixed ordinal of a direction.
    pub open spec fn index(self) -> nat {
        match self {
            Direction::Up => 0,
            Direction::Right => 1,
            Direction::Down => 2,
            Direction::Left => 3,
        }
    }

    /// The next direction in the cycle Up, Right, Down, Left.
    pub open spec fn clockwise(self) -> Direction {
        match self {
            Direction::Up => Direction::Right,
            Direction::Right => Direction::Down,
            Direction::Down => Direction::Left,
            Direction::Left => Direction::Up,
        }
    }

    /// The previous direction in the cycle Up, Right, Down, Left.
    pub open spec fn counter_clockwise(self) -> Direction {
        match self {
            Direction::Up => Direction::Left,
            Direction::Right => Direction::Up,
            Direction::Down => Direction::Right,
            Direction::Left => Direction::Down,
        }
    }

    /// The ordinal of this direction, in `0..4`.
    pub fn ordinal(self) -> (r: usize)
        ensures
            r == self.index(),
            r < 4,
    {
        match self {
            Direction::Up => 0,
            Direction::Right => 1,
            Direction::Down => 2,
            Direction::Left => 3,
        }
    }

    /// The direction after one step of the turn table on a cell of `color`.
    pub fn turn(self, color: u8) -> (r: Direction)
        requires
            is_color(color),
        ensures
            r == turned(color, self),
    {
        match (color, self) {
            (0, Direction::Up) => Direction::Right,
            (0, Direction::Right) => Direction::Down,
            (0, Direction::Down) => Direction::Left,
            (0, Direction::Left) => Direction::Up,
            (_, Direction::Up) => Direction::Left,
            (_, Direction::Right) => Direction::Up,
            (_, Direction::Down) => Direction::Right,
            (_, Direction::Left) => Direction::Down,
        }
    }
}

} // verus!
