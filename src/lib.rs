//! Rules engine for a two-player tic-tac-toe game: symbol assignment, the
//! board, line detection and the game's lifecycle.

pub mod contract;
pub mod error;
pub mod msg;
pub mod state;
