//! A two-player tic-tac-toe engine: the 3x3 board, move validation, turn
//! alternation, win detection and the running score, together with the
//! decoding of a line of player input into a move.

pub mod side;
pub mod error;
pub mod field;
pub mod model;
pub mod board;
pub mod input;
pub mod laws;
