//! One-dimensional elementary cellular automata.
//!
//! A [`Line`] holds one of the 256 elementary rules and a row of binary
//! cells, and advances the row one generation at a time, in place.

pub mod cell;
pub mod generation;
pub mod line;
pub mod rule;

pub use cell::Cell;
pub use line::Line;
