//! The decisions of a user interface around one game: what a click does,
//! how a restart is asked for and carried out, and how a cell is painted.
//! Drawing and event plumbing are left to the host.

pub mod board_component;
pub mod case_component;
pub mod main_component;
