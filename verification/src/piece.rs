//! The values a square can hold, the two sides, and the reasons a move is refused.

use vstd::prelude::*;

verus! {

/// Why a proposed move was refused.
#[derive(Clone, Copy, Debug, PartialEq, Eq)]
pub enum ChessError {
    InvalidSquare,
    NotAMove,
    MoveFromEmpty,
    MoveFromEnemyPiece,
    IllegalMove,
    MoveToTeamPiece,
}

/// One of the two sides.
#[derive(Clone, Copy, Debug, PartialEq, Eq)]
pub enum Team {
    White,
    Black,
}

/// The six kinds of chess piece.
#[derive(Clone, Copy, Debug, PartialEq, Eq)]
pub enum Piece {
    Pawn,
    Rook,
    Knight,
    Bishop,
    Queen,
    King,
}

/// What one square of the board holds.
#[derive(Clone, Copy, Debug, PartialEq, Eq)]
pub enum SquareState {
    Empty,
    White(Piece),
    Black(Piece),
}

impl Team {
    /// The other side.
    pub open spec fn opponent(self) -> Team {
        match self {
            Team::White => Team::Black,
            Team::Black => Team::White,
        }
    }
}

impl SquareState {
    /// The side whose piece stands on the square, if any.
    pub open spec fn owner(self) -> Option<Team> {
        match self {
            SquareState::Empty => None,
            SquareState::White(_) => Some(Team::White),
            SquareState::Black(_) => Some(Team::Black),
        }
    }

    /// The kind of piece on the square, if any.
    pub open spec fn piece(self) -> Option<Piece> {
        match self {
            SquareState::Empty => None,
            SquareState::White(p) => Some(p),
            SquareState::Black(p) => Some(p),
        }
    }
}

} // verus!
