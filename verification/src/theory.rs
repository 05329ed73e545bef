//! Theorems about generations.
//!
//! Each of them is stated over the [`Grid`] that a board stands for, in the
//! terms in which the operations of [`Board`] are specified.

use vstd::prelude::*;
use crate::board::Board;
use crate::grid::{lemma_index_at, lemma_neighbours, lemma_position_of, Grid};
use crate::state::State;

verus! {

/// The next generation of a well-formed grid is well-formed and has the same
/// dimensions.
pub proof fn step_keeps_shape(grid: Grid)
    requires
        grid.wf(),
    ensures
        grid.step().wf(),
        grid.step().columns == grid.columns,
        grid.step().rows == grid.rows,
        grid.step().cells.len() == grid.cells.len(),
{
}

/// The next generation depends on nothing but the cells and the dimensions:
/// whenever two boards hold the same grid, so do their next generations.
pub proof fn transition_is_deterministic(
    first: Board,
    second: Board,
    after_first: Board,
    after_second: Board,
)
    requires
        first@ == second@,
        after_first@ == first@.step(),
        after_second@ == second@.step(),
    ensures
        after_first@ == after_second@,
{
}

/// Whether the cell `index` lies in the first or the last row.
pub open spec fn in_border_row(grid: Grid, index: int) -> bool {
    grid.row_of(index) == 0 || grid.row_of(index) == grid.rows - 1
}

/// Whether the cell `index` lies in the first or the last column.
pub open spec fn in_border_column(grid: Grid, index: int) -> bool {
    grid.column_of(index) == 0 || grid.column_of(index) == grid.columns - 1
}

/// In a grid of at least two rows and two columns, a corner cell has three
/// neighbours, any other cell on the border has five, and a cell inside has
/// eight.
///
/// A grid of a single row or column is left out: its cells have two
/// neighbours at most.
pub proof fn border_cells_have_fewer_neighbours(grid: Grid, index: int)
    requires
        grid.wf(),
        grid.columns >= 2,
        grid.rows >= 2,
        0 <= index < grid.cells.len(),
    ensures
        in_border_row(grid, index) && in_border_column(grid, index)
            ==> grid.possible_neighbours(index) == 3,
        in_border_row(grid, index) != in_border_column(grid, index)
            ==> grid.possible_neighbours(index) == 5,
        !in_border_row(grid, index) && !in_border_column(grid, index)
            ==> grid.possible_neighbours(index) == 8,
{
    lemma_position_of(grid, index);
}

/// Whether every cell of the grid is dead.
pub open spec fn all_dead(grid: Grid) -> bool {
    forall|index: int| 0 <= index < grid.cells.len() ==> grid.cells[index] == State::Dead
}

/// A grid without a live cell stays as it is: nothing comes to life.
pub proof fn extinction_is_final(grid: Grid)
    requires
        grid.wf(),
        all_dead(grid),
    ensures
        grid.step() == grid,
        all_dead(grid.step()),
{
    assert forall|index: int| 0 <= index < grid.cells.len() implies grid.next_state(index)
        == grid.cells[index] by {
        lemma_neighbours(grid, index);
    }
    assert(grid.step().cells =~= grid.cells);
}

/// A cell without a live neighbour is dead in the next generation, whatever
/// it was before.
pub proof fn isolated_cell_dies(grid: Grid, index: int)
    requires
        0 <= index < grid.cells.len(),
        grid.live_neighbours(index) == 0,
    ensures
        grid.step().cells[index] == State::Dead,
{
}

/// A grid whose only live cell is `index` has no live cell in the next
/// generation: the cell dies, and no dead cell has three live neighbours.
pub proof fn lone_cell_leaves_nothing(grid: Grid, index: int)
    requires
        grid.wf(),
        0 <= index < grid.cells.len(),
        forall|other: int|
            0 <= other < grid.cells.len() ==> (grid.cells[other] == State::Alive <==> other
                == index),
    ensures
        all_dead(grid.step()),
{
    assert forall|at: int| 0 <= at < grid.cells.len() implies grid.next_state(at)
        == State::Dead by {
        lemma_neighbours(grid, at);
    }
}

/// Whether the position `(r, c)` belongs to the block of two by two cells
/// whose upper left cell is `(row, col)`.
pub open spec fn in_block(row: int, col: int, r: int, c: int) -> bool {
    row <= r <= row + 1 && col <= c <= col + 1
}

/// A block of two by two live cells with a margin of dead cells around it
/// stays alive, whatever the rest of the grid holds: each of its cells has
/// the other three as its live neighbours.
pub proof fn block_survives(grid: Grid, row: int, col: int)
    requires
        grid.wf(),
        grid.contains(row - 1, col - 1),
        grid.contains(row + 2, col + 2),
        forall|r: int, c: int|
            #![trigger grid.index_at(r, c)]
            row - 1 <= r <= row + 2 && col - 1 <= c <= col + 2 ==> (grid.cells[grid.index_at(r, c)]
                == State::Alive <==> in_block(row, col, r, c)),
    ensures
        forall|r: int, c: int|
            #![trigger grid.index_at(r, c)]
            in_block(row, col, r, c) ==> grid.step().cells[grid.index_at(r, c)] == State::Alive,
{
    assert forall|r: int, c: int|
        #![trigger grid.index_at(r, c)]
        in_block(row, col, r, c) implies grid.step().cells[grid.index_at(r, c)]
        == State::Alive by {
        lemma_index_at(grid, r, c);
    }
}

/// A grid whose live cells are exactly those of one block of two by two
/// cells is a still life: its next generation is the grid itself. This holds
/// wherever the block lies, with a margin around it or at the border.
pub proof fn lone_block_is_still(grid: Grid, row: int, col: int)
    requires
        grid.wf(),
        grid.contains(row, col),
        grid.contains(row + 1, col + 1),
        forall|r: int, c: int|
            #![trigger grid.index_at(r, c)]
            grid.contains(r, c) ==> (grid.cells[grid.index_at(r, c)] == State::Alive
                <==> in_block(row, col, r, c)),
    ensures
        grid.step() == grid,
{
    assert forall|index: int| 0 <= index < grid.cells.len() implies grid.next_state(index)
        == grid.cells[index] by {
        lemma_position_of(grid, index);
    }
    assert(grid.step().cells =~= grid.cells);
}

} // verus!
