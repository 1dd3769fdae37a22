//! Conway's Game of Life on a bounded rectangular board.
//!
//! `cell` holds the two cell states and the birth/survival rule, `rng` the
//! seeded stream of numbers that fills a new board, `grid` the board with its
//! generation step (edges are clamped: nothing lies beyond them), `frame` the
//! pause/quit decisions of the frame loop, `render` the list of shapes that a
//! frame paints, and `laws` what holds of them together.

pub mod cell;
pub mod rng;
pub mod grid;
pub mod frame;
pub mod render;
pub mod laws;
