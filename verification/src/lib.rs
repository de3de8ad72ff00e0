//! A nonogram ("Picross") puzzle engine.
//!
//! The engine owns a hidden solution grid, the player's working grid, the
//! numeric row/column clues derived from the solution, and the win flag.
//! Cells are revealed by toggling them between three states until the
//! player's filled-cell pattern matches the hidden solution under the
//! relaxed match rule (a crossed cell counts as not filled).

pub mod cell;
pub mod clues;
pub mod puzzle;
mod random;

pub use crate::cell::CellState;
pub use crate::cell::ToggleAction;
pub use crate::puzzle::NonogramsApp;
