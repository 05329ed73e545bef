//! The mathematical model of one generation.
//!
//! A [`Grid`] is a rectangle of cells stored row by row: the cell in row `r`
//! and column `c` has the flat index `r * columns + c`. Everything here is
//! specification: the executable board is described in these terms.

use vstd::prelude::*;
use vstd::arithmetic::div_mod::{lemma_fundamental_div_mod, lemma_fundamental_div_mod_converse};
use crate::state::{rule, State};

verus! {

/// The text of a run of cells: the glyph of each, one after the other.
pub open spec fn glyphs(cells: Seq<State>) -> Seq<char>
    decreases cells.len(),
{
    if cells.len() == 0 {
        Seq::empty()
    } else {
        glyphs(cells.drop_last()) + cells.last().glyph()
    }
}

/// One generation of the automaton.
pub struct Grid {
    pub columns: int,
    pub rows: int,
    pub cells: Seq<State>,
}

impl Grid {
    /// Both dimensions are positive and there is exactly one cell for each
    /// position.
    pub open spec fn wf(self) -> bool {
        &&& self.columns > 0
        &&& self.rows > 0
        &&& self.cells.len() == self.columns * self.rows
    }

    /// The row of the cell with the given flat index.
    pub open spec fn row_of(self, index: int) -> int {
        index / self.columns
    }

    /// The column of the cell with the given flat index.
    pub open spec fn column_of(self, index: int) -> int {
        index % self.columns
    }

    /// The flat index of the cell in the given row and column.
    pub open spec fn index_at(self, row: int, col: int) -> int {
        row * self.columns + col
    }

    /// Whether the given row and column name a cell of the grid.
    pub open spec fn contains(self, row: int, col: int) -> bool {
        0 <= row < self.rows && 0 <= col < self.columns
    }

    /// The flat index of the cell that lies `dr` rows and `dc` columns away
    /// from the cell `index`, if there is such a cell.
    ///
    /// The grid is bounded: a step over the border leads nowhere, it neither
    /// wraps around nor stops at the border.
    pub open spec fn neighbour(self, index: int, dr: int, dc: int) -> Option<int> {
        let row = self.row_of(index) + dr;
        let col = self.column_of(index) + dc;
        if self.contains(row, col) {
            Some(self.index_at(row, col))
        } else {
            None
        }
    }

    /// 1 if the cell `index` has a neighbour in the direction `(dr, dc)`,
    /// else 0.
    pub open spec fn present_towards(self, index: int, dr: int, dc: int) -> int {
        if self.neighbour(index, dr, dc) is Some {
            1
        } else {
            0
        }
    }

    /// 1 if the cell `index` has a neighbour in the direction `(dr, dc)` and
    /// that neighbour is alive, else 0.
    pub open spec fn live_towards(self, index: int, dr: int, dc: int) -> int {
        match self.neighbour(index, dr, dc) {
            Some(other) => if self.cells[other] == State::Alive {
                1
            } else {
                0
            },
            None => 0,
        }
    }

    /// How many of the eight surrounding positions of the cell `index` lie
    /// inside the grid.
    pub open spec fn possible_neighbours(self, index: int) -> int {
        self.present_towards(index, 1, 1) + self.present_towards(index, 1, 0)
            + self.present_towards(index, 1, -1) + self.present_towards(index, 0, -1)
            + self.present_towards(index, -1, -1) + self.present_towards(index, -1, 0)
            + self.present_towards(index, -1, 1) + self.present_towards(index, 0, 1)
    }

    /// How many of the up to eight neighbours of the cell `index` are alive.
    pub open spec fn live_neighbours(self, index: int) -> int {
        self.live_towards(index, 1, 1) + self.live_towards(index, 1, 0)
            + self.live_towards(index, 1, -1) + self.live_towards(index, 0, -1)
            + self.live_towards(index, -1, -1) + self.live_towards(index, -1, 0)
            + self.live_towards(index, -1, 1) + self.live_towards(index, 0, 1)
    }

    /// The state of the cell `index` in the next generation.
    pub open spec fn next_state(self, index: int) -> State {
        rule(self.cells[index], self.live_neighbours(index))
    }

    /// The next generation: a grid of the same dimensions in which every cell
    /// has the state that the rule gives it in this generation.
    pub open spec fn step(self) -> Grid {
        Grid {
            columns: self.columns,
            rows: self.rows,
            cells: Seq::new(self.cells.len(), |index: int| self.next_state(index)),
        }
    }

    /// The cells of the given row, from the first column to the last.
    pub open spec fn row_cells(self, row: int) -> Seq<State> {
        self.cells.subrange(row * self.columns, (row + 1) * self.columns)
    }

    /// The line of text that shows the given row: its glyphs and a line feed.
    pub open spec fn line(self, row: int) -> Seq<char> {
        glyphs(self.row_cells(row)) + "\n"@
    }

    /// The lines of the first `count` rows, from the top.
    pub open spec fn lines(self, count: int) -> Seq<char>
        decreases count,
    {
        if count <= 0 {
            Seq::empty()
        } else {
            self.lines(count - 1) + self.line(count - 1)
        }
    }

    /// The text that shows the whole grid: one line for each row.
    pub open spec fn text(self) -> Seq<char> {
        self.lines(self.rows)
    }
}

/// A position inside the grid has a flat index inside the cell sequence, and
/// that index leads back to the position.
pub proof fn lemma_index_at(grid: Grid, row: int, col: int)
    requires
        grid.wf(),
        grid.contains(row, col),
    ensures
        0 <= grid.index_at(row, col) < grid.cells.len(),
        grid.row_of(grid.index_at(row, col)) == row,
        grid.column_of(grid.index_at(row, col)) == col,
{
    let columns = grid.columns;
    let rows = grid.rows;
    lemma_fundamental_div_mod_converse(row * columns + col, columns, row, col);
    assert(0 <= row * columns && row * columns + columns <= columns * rows)
        by (nonlinear_arith)
        requires
            0 <= row < rows,
            columns > 0,
    ;
}

/// A flat index inside the cell sequence names a position inside the grid,
/// and that position leads back to the index.
pub proof fn lemma_position_of(grid: Grid, index: int)
    requires
        grid.wf(),
        0 <= index < grid.cells.len(),
    ensures
        grid.contains(grid.row_of(index), grid.column_of(index)),
        grid.index_at(grid.row_of(index), grid.column_of(index)) == index,
{
    let columns = grid.columns;
    let rows = grid.rows;
    let row = index / columns;
    lemma_fundamental_div_mod(index, columns);
    assert(0 <= row < rows && columns * row == row * columns) by (nonlinear_arith)
        requires
            columns > 0,
            0 <= index < columns * rows,
            row == index / columns,
    ;
}

/// Every neighbour of a cell is a cell of the grid, and lies in the row and
/// column that its direction leads to.
pub proof fn lemma_neighbours(grid: Grid, index: int)
    requires
        grid.wf(),
    ensures
        forall|dr: int, dc: int|
            #![trigger grid.neighbour(index, dr, dc)]
            grid.neighbour(index, dr, dc) matches Some(other) ==> {
                &&& 0 <= other < grid.cells.len()
                &&& grid.row_of(other) == grid.row_of(index) + dr
                &&& grid.column_of(other) == grid.column_of(index) + dc
            },
{
    assert forall|dr: int, dc: int|
        #![trigger grid.neighbour(index, dr, dc)]
        grid.neighbour(index, dr, dc) is Some implies {
        let other = grid.neighbour(index, dr, dc)->0;
        &&& 0 <= other < grid.cells.len()
        &&& grid.row_of(other) == grid.row_of(index) + dr
        &&& grid.column_of(other) == grid.column_of(index) + dc
    } by {
        lemma_index_at(grid, grid.row_of(index) + dr, grid.column_of(index) + dc);
    }
}

} // verus!
