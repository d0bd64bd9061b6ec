//! Conway's Game of Life on a fixed-size torus, with a bit-packed grid.
//!
//! The grid owns one generation of cells. Every operation is specified over a
//! mathematical view of the grid: its two dimensions and the row-major
//! sequence of its cells.

pub mod bits;
pub mod chance;
pub mod grid;
pub mod index;
pub mod laws;
pub mod model;
