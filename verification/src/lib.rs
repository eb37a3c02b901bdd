//! Conway's Game of Life on a fixed 50 x 50 grid with hard boundaries
//! (no wraparound), together with the Bernoulli sampling used to seed it.

pub mod chance;
pub mod grid;
pub mod laws;
