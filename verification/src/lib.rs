//! Conway's Game of Life on a bounded rectangular grid.
//!
//! [`cell`] holds the two-valued cell state, [`rules`] the mathematical model
//! of the automaton, and [`grid`] the executable grid whose operations are
//! proved against that model. [`laws`] states what holds of the model for
//! every matrix. [`random`] is the random source that seeds a grid, and
//! [`session`] the state and decisions of an interactive driver.

pub mod cell;
pub mod grid;
pub mod laws;
pub mod random;
pub mod rules;
pub mod session;
