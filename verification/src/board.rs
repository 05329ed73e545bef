//! The executable board.
//!
//! A [`Board`] is an immutable snapshot of one generation. Its view is the
//! [`Grid`] it stands for, and every operation is specified over that view.

use vstd::prelude::*;
use vstd::string::StringExecFns;
use crate::grid::{glyphs, lemma_index_at, Grid};
use crate::state::State;

verus! {

/// One generation of the automaton, stored row by row.
///
/// Every board has positive dimensions and exactly `columns * rows` cells.
#[derive(Debug, PartialEq, Eq)]
pub struct Board {
    cols: i32,
    rows: i32,
    cells: Vec<State>,
}

impl View for Board {
    type V = Grid;

    closed spec fn view(&self) -> Grid {
        Grid { columns: self.cols as int, rows: self.rows as int, cells: self.cells@ }
    }
}

impl Clone for Board {
    fn clone(&self) -> (copy: Board)
        ensures
            copy@ == self@,
    {
        proof {
            use_type_invariant(self);
        }
        Board { cols: self.cols, rows: self.rows, cells: self.cells.clone() }
    }
}

impl Board {
    #[verifier::type_invariant]
    spec fn well_formed(self) -> bool {
        self@.wf()
    }

    /// Makes a board of the given dimensions from its cells, given row by
    /// row.
    ///
    /// The dimensions must be positive and the number of cells must be their
    /// product; [`Board::try_new`] tests this at run time.
    pub fn new(cols: i32, rows: i32, cells: Vec<State>) -> (board: Board)
        requires
            cols > 0,
            rows > 0,
            cells@.len() == cols * rows,
        ensures
            board@ == (Grid { columns: cols as int, rows: rows as int, cells: cells@ }),
            board@.wf(),
    {
        Board { cols, rows, cells }
    }

    /// Makes a board as [`Board::new`] does where the dimensions are positive
    /// and the number of cells is their product, and returns `None` where
    /// they are not.
    pub fn try_new(cols: i32, rows: i32, cells: Vec<State>) -> (made: Option<Board>)
        ensures
            made is Some <==> cols > 0 && rows > 0 && cells@.len() == cols * rows,
            made matches Some(board) ==> board@ == (Grid {
                columns: cols as int,
                rows: rows as int,
                cells: cells@,
            }),
    {
        if cols <= 0 || rows <= 0 {
            return None;
        }
        assert(0 < cols * rows <= 0x3fff_ffff_0000_0001) by (nonlinear_arith)
            requires
                0 < cols <= 0x7fff_ffff,
                0 < rows <= 0x7fff_ffff,
        ;
        let wanted: u64 = cols as u64 * rows as u64;
        if cells.len() as u64 != wanted {
            return None;
        }
        Some(Board::new(cols, rows, cells))
    }

    /// The number of columns.
    pub fn columns(&self) -> (columns: i32)
        ensures
            columns == self@.columns,
            columns > 0,
    {
        proof {
            use_type_invariant(self);
        }
        self.cols
    }

    /// The number of rows.
    pub fn rows(&self) -> (rows: i32)
        ensures
            rows == self@.rows,
            rows > 0,
    {
        proof {
            use_type_invariant(self);
        }
        self.rows
    }

    /// The cells, row by row. There are `columns * rows` of them.
    pub fn cells(&self) -> (cells: &Vec<State>)
        ensures
            cells@ == self@.cells,
            cells@.len() == self@.columns * self@.rows,
    {
        proof {
            use_type_invariant(self);
        }
        &self.cells
    }

    /// The index of the cell that lies `offset.0` rows and `offset.1` columns
    /// away from the cell `index`, or `None` if that position is outside the
    /// board. No index and no offset is refused.
    pub fn indexate(&self, index: usize, offset: (i32, i32)) -> (found: Option<usize>)
        ensures
            match found {
                Some(other) => {
                    &&& self@.neighbour(index as int, offset.0 as int, offset.1 as int) == Some(
                        other as int,
                    )
                    &&& other < self@.cells.len()
                },
                None => self@.neighbour(index as int, offset.0 as int, offset.1 as int) is None,
            },
    {
        proof {
            use_type_invariant(self);
        }
        let columns = self.cols as usize;
        let row: i128 = (index / columns) as i128 + offset.0 as i128;
        let col: i128 = (index % columns) as i128 + offset.1 as i128;
        if row < 0 || col < 0 || row >= self.rows as i128 || col >= self.cols as i128 {
            return None;
        }
        proof {
            lemma_index_at(self@, row as int, col as int);
            assert(self@.cells.len() == self.cells.len());
        }
        Some(row as usize * columns + col as usize)
    }

    /// 1 if the cell `index` has a live neighbour in the direction `offset`,
    /// else 0.
    fn live_towards(&self, index: usize, offset: (i32, i32)) -> (count: u8)
        requires
            index < self@.cells.len(),
        ensures
            count == self@.live_towards(index as int, offset.0 as int, offset.1 as int),
    {
        match self.indexate(index, offset) {
            Some(other) => if self.cells[other] == State::Alive {
                1
            } else {
                0
            },
            None => 0,
        }
    }

    /// The state that the cell `index` has in the next generation.
    pub fn get_updated_state(&self, index: usize) -> (state: State)
        requires
            index < self@.cells.len(),
        ensures
            state == self@.next_state(index as int),
    {
        let alive: u8 = self.live_towards(index, (1, 1)) + self.live_towards(index, (1, 0))
            + self.live_towards(index, (1, -1)) + self.live_towards(index, (0, -1))
            + self.live_towards(index, (-1, -1)) + self.live_towards(index, (-1, 0))
            + self.live_towards(index, (-1, 1)) + self.live_towards(index, (0, 1));
        match self.cells[index] {
            State::Alive => if alive == 2 || alive == 3 {
                State::Alive
            } else {
                State::Dead
            },
            State::Dead => if alive == 3 {
                State::Alive
            } else {
                State::Dead
            },
        }
    }

    /// The next generation, as a new board. This board is left as it is.
    pub fn transition(&self) -> (next: Board)
        ensures
            next@ == self@.step(),
            next@.wf(),
    {
        proof {
            use_type_invariant(self);
        }
        let count = self.cells.len();
        let mut cells: Vec<State> = Vec::with_capacity(count);
        let mut index: usize = 0;
        while index < count
            invariant
                count == self@.cells.len(),
                index <= count,
                cells@.len() == index,
                forall|i: int| 0 <= i < index ==> cells@[i] == self@.next_state(i),
            decreases count - index,
        {
            let state = self.get_updated_state(index);
            cells.push(state);
            index += 1;
        }
        assert(cells@ =~= self@.step().cells);
        Board::new(self.cols, self.rows, cells)
    }

    /// The board as text for a terminal: one line for each row, each made of
    /// the glyphs of its cells and ended by a line feed.
    pub fn render(&self) -> (text: String)
        ensures
            text@ == self@.text(),
    {
        proof {
            use_type_invariant(self);
        }
        let columns = self.cols as usize;
        let rows = self.rows as usize;
        let mut text = String::new();
        let mut row: usize = 0;
        while row < rows
            invariant
                self@.wf(),
                columns == self@.columns,
                rows == self@.rows,
                row <= rows,
                text@ == self@.lines(row as int),
            decreases rows - row,
        {
            proof {
                lemma_index_at(self@, row as int, columns - 1);
                assert(self@.cells.len() == self.cells.len());
                assert((row + 1) * columns == row * columns + columns) by (nonlinear_arith);
            }
            let start = row * columns;
            let mut col: usize = 0;
            while col < columns
                invariant
                    self@.wf(),
                    columns == self@.columns,
                    start == row * columns,
                    start + columns <= self.cells.len(),
                    col <= columns,
                    text@ == self@.lines(row as int) + glyphs(
                        self@.cells.subrange(start as int, start + col),
                    ),
                decreases columns - col,
            {
                proof {
                    let shown = self@.cells.subrange(start as int, start + col);
                    let longer = self@.cells.subrange(start as int, start + col + 1);
                    assert(longer.drop_last() =~= shown);
                }
                text.append(self.cells[start + col].symbol());
                col += 1;
            }
            text.append("\n");
            proof {
                let before = self@.lines(row as int);
                assert(text@ =~= before + self@.line(row as int));
            }
            row += 1;
        }
        text
    }
}

} // verus!
