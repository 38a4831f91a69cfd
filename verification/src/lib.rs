//! A falling-block puzzle: pairs of blocks come down a grid, can be moved
//! sideways and turned on the way, and lock into the grid where they can
//! fall no further.
//!
//! `geometry` has positions and directions, `values` the blocks and the
//! two-block piece, `grid` the cells that hold resting blocks and the rule
//! by which a block comes to rest, `renderer` the interface to whatever
//! draws the game, and `game` the state machine that ties them together.
//! Time is counted in whole milliseconds.

pub mod geometry;
pub mod values;
pub mod grid;
pub mod renderer;
pub mod game;
