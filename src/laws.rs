//! Properties of the engine that hold over any number of steps.

use vstd::prelude::*;

use crate::direction::{flipped, turned, Direction};
use crate::engine::{after, initial, next, AntState};
use crate::grid::lemma_cell_index_in_range;

verus! {

/// A new engine of positive side is well formed.
pub proof fn lemma_initial_wf(size: nat)
    requires
        size > 0,
    ensures
        initial(size).wf(),
{
    assert(size / 2 < size);
}

/// One step keeps the state well formed and the side unchanged.
pub proof fn lemma_next_wf(s: AntState)
    requires
        s.wf(),
    ensures
        next(s).wf(),
        next(s).size == s.size,
{
    lemma_cell_index_in_range(s.size, s.x, s.y);
}

/// However many steps are taken, the grid keeps exactly `size * size` cells,
/// each white or black, the ant stays within `0..size` on both axes and its
/// direction has an ordinal in `0..4`.
pub proof fn lemma_invariants_hold(s: AntState, n: nat)
    requires
        s.wf(),
    ensures
        after(s, n).wf(),
        after(s, n).size == s.size,
        after(s, n).cells.len() == s.size * s.size,
        after(s, n).x < s.size,
        after(s, n).y < s.size,
        after(s, n).direction.index() < 4,
    decreases n,
{
    if n > 0 {
        lemma_invariants_hold(s, (n - 1) as nat);
        lemma_next_wf(after(s, (n - 1) as nat));
    }
}

/// From construction on, after any number of steps, the grid has exactly
/// `size * size` cells, the ant is within `0..size` on both axes and its
/// direction has an ordinal in `0..4`.
pub proof fn lemma_invariants_from_start(size: nat, n: nat)
    requires
        size > 0,
    ensures
        after(initial(size), n).wf(),
        after(initial(size), n).cells.len() == size * size,
        after(initial(size), n).x < size,
        after(initial(size), n).y < size,
        after(initial(size), n).direction.index() < 4,
{
    lemma_initial_wf(size);
    lemma_invariants_hold(initial(size), n);
}

/// A step flips the color of the cell under the ant before the step and
/// leaves every other cell as it was.
pub proof fn lemma_step_toggles_one_cell(s: AntState)
    requires
        s.wf(),
    ensures
        next(s).cells.len() == s.cells.len(),
        next(s).cells[s.here() as int] == flipped(s.cells[s.here() as int]),
        next(s).cells[s.here() as int] != s.cells[s.here() as int],
        forall|i: int|
            0 <= i < s.cells.len() && i != s.here() ==> next(s).cells[i] == s.cells[i],
{
    lemma_cell_index_in_range(s.size, s.x, s.y);
}

/// Two engines made with the same side and stepped the same number of times
/// are in the same state: position, direction and grid.
pub proof fn lemma_deterministic(a: AntState, b: AntState, n: nat)
    requires
        a == initial(a.size),
        b == initial(b.size),
        a.size == b.size,
    ensures
        after(a, n) == after(b, n),
        after(a, n).x == after(b, n).x,
        after(a, n).y == after(b, n).y,
        after(a, n).direction == after(b, n).direction,
        after(a, n).cells == after(b, n).cells,
{
}

/// Where the new direction points out of the grid from an edge cell, the
/// coordinate along that direction keeps its value; the other one never
/// changes.
pub proof fn lemma_boundary_clamp(s: AntState)
    requires
        s.wf(),
    ensures
        ({
            let d = turned(s.cells[s.here() as int], s.direction);
            &&& (d == Direction::Up && s.y == 0) ==> next(s).y == s.y
            &&& (d == Direction::Down && s.y == s.size - 1) ==> next(s).y == s.y
            &&& (d == Direction::Left && s.x == 0) ==> next(s).x == s.x
            &&& (d == Direction::Right && s.x == s.size - 1) ==> next(s).x == s.x
            &&& (d == Direction::Up || d == Direction::Down) ==> next(s).x == s.x
            &&& (d == Direction::Left || d == Direction::Right) ==> next(s).y == s.y
        }),
{
}

} // verus!
