//! A move-legality checker for an 8×8 chess board.
//!
//! A [`Board`] holds the squares. [`Board::move_piece`] reads two square
//! labels, judges the move they ask for, and makes it if it is legal. There is
//! no check or checkmate, no castling, no en passant and no promotion, and
//! nothing looks at the squares that a rook, bishop or queen passes over.

pub mod board;
pub mod count;
pub mod label;
pub mod moves;
pub mod piece;
pub mod render;
pub mod rules;

pub use board::Board;
pub use piece::{ChessError, Piece, SquareState, Team};
