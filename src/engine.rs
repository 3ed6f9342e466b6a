//! The ant engine: a grid, a position and a direction, advanced one step at a
//! time by the canonical rule with a clamped boundary.

use vstd::prelude::*;

use crate::direction::{is_color, flipped, turned, Direction, WHITE};
use crate::grid::{cell_index, lemma_cell_index_in_range, AntError, Grid};

verus! {

/// The mathematical state of an engine.
pub struct AntState {
    pub x: nat,
    pub y: nat,
    pub direction: Direction,
    /// The cell colors in row-major order.
    pub cells: Seq<u8>,
    pub size: nat,
}

impl AntState {
    /// The side is positive, the ant stands on the grid, there are
    /// `size * size` cells and each is white or black.
    pub open spec fn wf(self) -> bool {
        &&& self.size > 0
        &&& self.x < self.size
        &&& self.y < self.size
        &&& self.cells.len() == self.size * self.size
        &&& forall|i: int| 0 <= i < self.cells.len() ==> is_color(#[trigger] self.cells[i])
    }

    /// The index of the cell under the ant.
    pub open spec fn here(self) -> nat {
        cell_index(self.size, self.x, self.y)
    }
}

/// The state of a new engine of side `size`: every cell white, the ant in the
/// middle cell facing up.
pub open spec fn initial(size: nat) -> AntState {
    AntState {
        x: size / 2,
        y: size / 2,
        direction: Direction::Up,
        cells: Seq::new(size * size, |i: int| WHITE),
        size,
    }
}

/// The position one cell from `(x, y)` towards `d`, where a coordinate that
/// would leave `0..size` keeps its value.
pub open spec fn advanced(size: nat, x: nat, y: nat, d: Direction) -> (nat, nat) {
    match d {
        Direction::Up => if y > 0 { (x, (y - 1) as nat) } else { (x, y) },
        Direction::Right => if x + 1 < size { (x + 1, y) } else { (x, y) },
        Direction::Down => if y + 1 < size { (x, y + 1) } else { (x, y) },
        Direction::Left => if x > 0 { ((x - 1) as nat, y) } else { (x, y) },
    }
}

/// One step: turn by the color under the ant, flip that cell, then move one
/// cell in the new direction unless the edge is in the way.
pub open spec fn next(s: AntState) -> AntState {
    let c = s.cells[s.here() as int];
    let d = turned(c, s.direction);
    let p = advanced(s.size, s.x, s.y, d);
    AntState {
        x: p.0,
        y: p.1,
        direction: d,
        cells: s.cells.update(s.here() as int, flipped(c)),
        size: s.size,
    }
}

/// The state after `n` steps from `s`.
pub open spec fn after(s: AntState, n: nat) -> AntState
    decreases n,
{
    if n == 0 {
        s
    } else {
        next(after(s, (n - 1) as nat))
    }
}

/// A Langton's Ant on a square grid whose edges the ant cannot cross.
pub struct Ant {
    x: usize,
    y: usize,
    direction: Direction,
    grid: Grid,
}

impl View for Ant {
    type V = AntState;

    closed spec fn view(&self) -> AntState {
        AntState {
            x: self.x as nat,
            y: self.y as nat,
            direction: self.direction,
            cells: self.grid@,
            size: self.grid.side(),
        }
    }
}

impl Ant {
    /// The engine's state is well formed.
    pub open spec fn wf(&self) -> bool {
        self@.wf()
    }

    /// An engine of side `size` in its initial state; `InvalidSize` when
    /// `size` is zero.
    pub fn new(size: usize) -> (r: Result<Ant, AntError>)
        requires
            size * size <= usize::MAX,
        ensures
            size == 0 <==> r is Err,
            r is Err ==> r == Err::<Ant, AntError>(AntError::InvalidSize),
            r matches Ok(a) ==> a.wf() && a@ == initial(size as nat),
    {
        match Grid::new(size) {
            Err(e) => Err(e),
            Ok(grid) => {
                let a = Ant { x: size / 2, y: size / 2, direction: Direction::Up, grid };
                assert(a@.cells =~= initial(size as nat).cells);
                Ok(a)
            },
        }
    }

    /// Performs one step and returns a copy of the cells in row-major order.
    pub fn step(&mut self) -> (r: Vec<u8>)
        requires
            old(self).wf(),
        ensures
            final(self).wf(),
            final(self)@ == next(old(self)@),
            r@ == final(self)@.cells,
            r@.len() == old(self)@.size * old(self)@.size,
    {
        let color = self.grid.read(self.x, self.y);
        let d = self.direction.turn(color);
        self.grid.toggle(self.x, self.y);
        self.direction = d;
        let size = self.grid.size();
        match d {
            Direction::Up => {
                if self.y > 0 {
                    self.y = self.y - 1;
                }
            },
            Direction::Right => {
                if self.x + 1 < size {
                    self.x = self.x + 1;
                }
            },
            Direction::Down => {
                if self.y + 1 < size {
                    self.y = self.y + 1;
                }
            },
            Direction::Left => {
                if self.x > 0 {
                    self.x = self.x - 1;
                }
            },
        }
        proof {
            lemma_cell_index_in_range(old(self)@.size, old(self)@.x, old(self)@.y);
            assert(self@ == next(old(self)@));
        }
        self.grid.snapshot()
    }

    /// The column of the ant, in `0..size`.
    pub fn x(&self) -> (r: usize)
        ensures
            r == self@.x,
    {
        self.x
    }

    /// The row of the ant, in `0..size`.
    pub fn y(&self) -> (r: usize)
        ensures
            r == self@.y,
    {
        self.y
    }

    /// The ordinal of the ant's direction: Up = 0, Right = 1, Down = 2, Left = 3.
    pub fn direction(&self) -> (r: usize)
        ensures
            r == self@.direction.index(),
            r < 4,
    {
        self.direction.ordinal()
    }
}

} // verus!
