//! A chess position engine: board coordinates, pieces, and a board that
//! applies moves and generates the destinations reachable by each piece.

pub mod field;
pub mod piece;
pub mod board;
pub mod movegen;
