//! The state of a single cell, the rule that decides its fate, and its glyph.

use vstd::prelude::*;

verus! {

/// A cell is either alive or dead.
#[derive(PartialEq, Eq, Clone, Copy, Debug, Structural)]
pub enum State {
    Alive,
    Dead,
}

/// Conway's rule: what a cell in state `current` becomes when `live` of its
/// neighbours are alive.
///
/// A live cell survives with two or three live neighbours, a dead cell comes
/// to life with exactly three, and every other cell is dead afterwards.
pub open spec fn rule(current: State, live: int) -> State {
    match current {
        State::Alive => if live == 2 || live == 3 {
            State::Alive
        } else {
            State::Dead
        },
        State::Dead => if live == 3 {
            State::Alive
        } else {
            State::Dead
        },
    }
}

impl State {
    /// The text that stands for a cell of this state on a terminal.
    ///
    /// A live cell is a full block. A dead cell is the same block between the
    /// escape sequence that switches to bright yellow and the one that resets
    /// the colour.
    pub open spec fn glyph(self) -> Seq<char> {
        match self {
            State::Alive => "\u{2588}"@,
            State::Dead => "\x1b[93m\u{2588}\x1b[0m"@,
        }
    }

    /// The glyph of this state as a string slice.
    pub fn symbol(self) -> (text: &'static str)
        ensures
            text@ == self.glyph(),
    {
        match self {
            State::Alive => "\u{2588}",
            State::Dead => "\x1b[93m\u{2588}\x1b[0m",
        }
    }
}

} // verus!
