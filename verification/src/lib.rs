//! Rules engine for a four-in-a-row game on a rectangular grid.
//!
//! Two players take turns marking cells. A move that leaves four or more of
//! the mover's cells in an unbroken run through the marked cell ends the
//! game. [`model`] holds the grid, the move rules and the text rendering;
//! [`view`] holds the decisions a user interface makes around one game.

pub mod model;
pub mod view;
