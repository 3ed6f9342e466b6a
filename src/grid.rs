//! The square, row-major buffer of cell colors.

use vstd::prelude::*;

use crate::direction::{is_color, flipped, WHITE};

verus! {

/// Why an engine or a grid could not be made.
#[derive(Clone, Copy, Debug, PartialEq, Eq, Structural)]
pub enum AntError {
    /// The side length is not a positive integer.
    InvalidSize,
}

/// The row-major index of cell `(x, y)` in a grid of side `size`.
pub open spec fn cell_index(size: nat, x: nat, y: nat) -> nat {
    y * size + x
}

/// A cell in range has its index in range.
pub proof fn lemma_cell_index_in_range(size: nat, x: nat, y: nat)
    requires
        x < size,
        y < size,
    ensures
        y * size <= cell_index(size, x, y) < size * size,
{
    assert(y * size + x < size * size) by (nonlinear_arith)
        requires
            x < size,
            y < size,
    ;
}

/// A square grid of `size * size` cells, each white (0) or black (1).
pub struct Grid {
    size: usize,
    cells: Vec<u8>,
}

impl View for Grid {
    type V = Seq<u8>;

    /// The cells in row-major order.
    closed spec fn view(&self) -> Seq<u8> {
        self.cells@
    }
}

impl Grid {
    /// The side length.
    pub closed spec fn side(&self) -> nat {
        self.size as nat
    }

    /// The side is positive, there are `side * side` cells and each is a color.
    pub open spec fn wf(&self) -> bool {
        &&& self.side() > 0
        &&& self@.len() == self.side() * self.side()
        &&& forall|i: int| 0 <= i < self@.len() ==> is_color(#[trigger] self@[i])
    }

    /// A grid of `size * size` white cells; `InvalidSize` when `size` is zero.
    pub fn new(size: usize) -> (r: Result<Grid, AntError>)
        requires
            size * size <= usize::MAX,
        ensures
            size == 0 <==> r is Err,
            r is Err ==> r == Err::<Grid, AntError>(AntError::InvalidSize),
            r matches Ok(g) ==> g.wf() && g.side() == size && g@ == Seq::new(
                (size * size) as nat,
                |i: int| WHITE,
            ),
    {
        if size == 0 {
            return Err(AntError::InvalidSize);
        }
        let n: usize = size * size;
        let cells: Vec<u8> = vec![WHITE; n];
        let g = Grid { size, cells };
        assert(g@ =~= Seq::new((size * size) as nat, |i: int| WHITE));
        Ok(g)
    }

    /// The side length.
    pub fn size(&self) -> (r: usize)
        ensures
            r == self.side(),
    {
        self.size
    }

    /// The color of cell `(x, y)`.
    pub fn read(&self, x: usize, y: usize) -> (r: u8)
        requires
            self.wf(),
            x < self.side(),
            y < self.side(),
        ensures
            r == self@[cell_index(self.side(), x as nat, y as nat) as int],
            is_color(r),
    {
        proof {
            lemma_cell_index_in_range(self.side(), x as nat, y as nat);
            assert(self.cells@.len() == self.size * self.size);
            assert(y * self.size < self.cells.len());
        }
        self.cells[y * self.size + x]
    }

    /// Flips the color of cell `(x, y)` and of no other cell.
    pub fn toggle(&mut self, x: usize, y: usize)
        requires
            old(self).wf(),
            x < old(self).side(),
            y < old(self).side(),
        ensures
            final(self).wf(),
            final(self).side() == old(self).side(),
            final(self)@ == old(self)@.update(
                cell_index(old(self).side(), x as nat, y as nat) as int,
                flipped(old(self)@[cell_index(old(self).side(), x as nat, y as nat) as int]),
            ),
    {
        proof {
            lemma_cell_index_in_range(self.side(), x as nat, y as nat);
            assert(self.cells@.len() == self.size * self.size);
            assert(y * self.size < self.cells.len());
        }
        let i: usize = y * self.size + x;
        let c: u8 = self.cells[i];
        let n: u8 = if c == WHITE { 1 } else { 0 };
        self.cells.set(i, n);
    }

    /// An independent copy of the cells in row-major order.
    pub fn snapshot(&self) -> (r: Vec<u8>)
        ensures
            r@ == self@,
    {
        let r = self.cells.clone();
        assert(r@ =~= self.cells@);
        r
    }
}

} // verus!
