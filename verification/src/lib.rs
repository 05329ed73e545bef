//! Conway's Game of Life on a bounded rectangular grid.
//!
//! The grid does not wrap around: a cell on the border simply has fewer
//! neighbours. [`grid::Grid`] is the mathematical model of one generation,
//! [`board::Board`] is the executable board whose operations are verified
//! against that model, and [`theory`] holds the theorems that follow.

pub mod state;
pub mod grid;
pub mod board;
pub mod theory;

pub use board::Board;
pub use state::State;
