//! The game itself: players, cells, the board and its rules.

pub mod board;
pub mod case;
pub mod laws;
pub mod rules;
pub mod text;
