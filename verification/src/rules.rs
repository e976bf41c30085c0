//! Which moves are legal: ownership of the two squares, then the shape of the
//! move for the piece that makes it. Nothing here looks at the squares between
//! source and destination, so rooks, bishops and queens pass over other pieces.

use vstd::prelude::*;
use crate::board::{Board, Grid};
use crate::piece::{ChessError, Piece, SquareState, Team};

verus! {

/// How far apart two coordinates lie on one axis.
pub open spec fn distance(a: int, b: int) -> int {
    if a <= b {
        b - a
    } else {
        a - b
    }
}

/// Going from row `r1` to row `r2` is exactly one step forward for `side`:
/// towards higher ranks for White, towards lower ranks for Black.
pub open spec fn one_step_forward(side: Team, r1: int, r2: int) -> bool {
    match side {
        Team::White => r2 == r1 + 1,
        Team::Black => r1 == r2 + 1,
    }
}

/// Whether a `piece` of `side` may go from (`r1`, `c1`) to (`r2`, `c2`), where
/// the destination holds `target`.
pub open spec fn shape_allows(
    piece: Piece,
    side: Team,
    r1: int,
    c1: int,
    r2: int,
    c2: int,
    target: SquareState,
) -> bool {
    let dr = distance(r1, r2);
    let dc = distance(c1, c2);
    match piece {
        Piece::Pawn => one_step_forward(side, r1, r2) && {
            ||| dc == 0 && target is Empty
            ||| dc == 1 && target.owner() == Some(side.opponent())
        },
        Piece::Rook => dr == 0 || dc == 0,
        Piece::Knight => (dr == 1 && dc == 2) || (dr == 2 && dc == 1),
        Piece::Bishop => dr == dc,
        Piece::Queen => dr == 0 || dc == 0 || dr == dc,
        Piece::King => dr <= 1 && dc <= 1,
    }
}

/// The source square must not hold a piece of the side that is not moving.
pub open spec fn source_check(source: SquareState, turn: Team) -> Result<(), ChessError> {
    if source.owner() == Some(turn.opponent()) {
        Err(ChessError::MoveFromEnemyPiece)
    } else {
        Ok(())
    }
}

/// The destination square must not hold a piece of the moving side.
pub open spec fn target_check(target: SquareState, turn: Team) -> Result<(), ChessError> {
    if target.owner() == Some(turn) {
        Err(ChessError::MoveToTeamPiece)
    } else {
        Ok(())
    }
}

/// A move changes at least one coordinate.
pub open spec fn displacement_check(dr: int, dc: int) -> Result<(), ChessError> {
    if dr == 0 && dc == 0 {
        Err(ChessError::NotAMove)
    } else {
        Ok(())
    }
}

/// The verdict on moving from (`r1`, `c1`) to (`r2`, `c2`) when it is `turn`'s
/// move. The checks come in this order, and the first that fails names the
/// violation: the source holds no piece of the other side; the destination
/// holds no piece of the moving side; the two squares differ; the source holds
/// a piece, and the move has a shape that this piece is allowed.
pub open spec fn legality(g: Grid, turn: Team, r1: int, c1: int, r2: int, c2: int) -> Result<
    (),
    ChessError,
> {
    let source = g[r1][c1];
    let target = g[r2][c2];
    if source.owner() == Some(turn.opponent()) {
        Err(ChessError::MoveFromEnemyPiece)
    } else if target.owner() == Some(turn) {
        Err(ChessError::MoveToTeamPiece)
    } else if r1 == r2 && c1 == c2 {
        Err(ChessError::NotAMove)
    } else {
        match source.piece() {
            None => Err(ChessError::MoveFromEmpty),
            Some(piece) => if shape_allows(piece, turn, r1, c1, r2, c2, target) {
                Ok(())
            } else {
                Err(ChessError::IllegalMove)
            },
        }
    }
}

/// A piece of the side that is not moving cannot be moved: the verdict is a
/// move from an enemy piece, whatever the destination and the shape.
pub proof fn enemy_piece_cannot_move(g: Grid, turn: Team, r1: int, c1: int, r2: int, c2: int)
    requires
        g[r1][c1].owner() == Some(turn.opponent()),
    ensures
        legality(g, turn, r1, c1, r2, c2) == Err::<(), _>(ChessError::MoveFromEnemyPiece),
{
}

/// No piece can move onto a piece of its own side: the verdict is a move to a
/// team piece, whatever the shape. This is stated of moves whose source holds
/// no piece of the other side, since that violation is reported first.
pub proof fn own_piece_cannot_be_taken(g: Grid, turn: Team, r1: int, c1: int, r2: int, c2: int)
    requires
        g[r1][c1].owner() != Some(turn.opponent()),
        g[r2][c2].owner() == Some(turn),
    ensures
        legality(g, turn, r1, c1, r2, c2) == Err::<(), _>(ChessError::MoveToTeamPiece),
{
}

/// Every verdict names its cause: a move is legal only from a piece of the
/// moving side, to another square that holds none of its pieces, in a shape
/// that the piece is allowed; and each violation is reported only where it
/// occurred. No verdict is an invalid square.
pub proof fn verdict_names_its_cause(g: Grid, turn: Team, r1: int, c1: int, r2: int, c2: int)
    ensures
        legality(g, turn, r1, c1, r2, c2) is Ok ==> {
            &&& g[r1][c1].owner() == Some(turn)
            &&& g[r2][c2].owner() != Some(turn)
            &&& !(r1 == r2 && c1 == c2)
            &&& shape_allows(g[r1][c1].piece().unwrap(), turn, r1, c1, r2, c2, g[r2][c2])
        },
        legality(g, turn, r1, c1, r2, c2) matches Err(ChessError::MoveFromEnemyPiece)
            ==> g[r1][c1].owner() == Some(turn.opponent()),
        legality(g, turn, r1, c1, r2, c2) matches Err(ChessError::MoveToTeamPiece)
            ==> g[r2][c2].owner() == Some(turn),
        legality(g, turn, r1, c1, r2, c2) matches Err(ChessError::NotAMove) ==> {
            &&& r1 == r2 && c1 == c2
            &&& g[r1][c1] is Empty
        },
        legality(g, turn, r1, c1, r2, c2) matches Err(ChessError::MoveFromEmpty)
            ==> g[r1][c1] is Empty,
        legality(g, turn, r1, c1, r2, c2) matches Err(ChessError::IllegalMove) ==> {
            &&& g[r1][c1].owner() == Some(turn)
            &&& !shape_allows(g[r1][c1].piece().unwrap(), turn, r1, c1, r2, c2, g[r2][c2])
        },
        !(legality(g, turn, r1, c1, r2, c2) matches Err(ChessError::InvalidSquare)),
{
}

/// Only the two squares of a move bear on the verdict. What stands between
/// them, or anywhere else on the board, does not: a rook, bishop or queen is
/// not stopped by a piece in its way.
pub proof fn verdict_ignores_other_squares(
    g: Grid,
    h: Grid,
    turn: Team,
    r1: int,
    c1: int,
    r2: int,
    c2: int,
)
    requires
        g[r1][c1] == h[r1][c1],
        g[r2][c2] == h[r2][c2],
    ensures
        legality(g, turn, r1, c1, r2, c2) == legality(h, turn, r1, c1, r2, c2),
{
}

fn gap(a: usize, b: usize) -> (d: usize)
    ensures
        d == distance(a as int, b as int),
{
    if a <= b {
        b - a
    } else {
        a - b
    }
}

impl Board {
    /// Confirms that (`r1`, `c1`) -> (`r2`, `c2`) is a legal move for `turn`,
    /// and names the violation if it is not.
    pub fn is_legal_move(&self, turn: Team, r1: usize, c1: usize, r2: usize, c2: usize) -> (verdict:
        Result<(), ChessError>)
        requires
            r1 < 8,
            c1 < 8,
            r2 < 8,
            c2 < 8,
        ensures
            verdict == legality(self@, turn, r1 as int, c1 as int, r2 as int, c2 as int),
    {
        self.is_not_enemy(&turn, r1, c1)?;
        self.is_not_team(&turn, r2, c2)?;

        let dr = gap(r1, r2);
        let dc = gap(c1, c2);

        self.is_a_move(dr, dc)?;

        let target = self.square(r2, c2);
        match self.square(r1, c1) {
            SquareState::White(Piece::Pawn) => {
                match (r1 < r2 && r2 - r1 == 1, dc, target) {
                    (true, 0, SquareState::Empty) | (true, 1, SquareState::Black(_)) => Ok(()),
                    _ => Err(ChessError::IllegalMove),
                }
            },
            SquareState::Black(Piece::Pawn) => {
                match (r2 < r1 && r1 - r2 == 1, dc, target) {
                    (true, 0, SquareState::Empty) | (true, 1, SquareState::White(_)) => Ok(()),
                    _ => Err(ChessError::IllegalMove),
                }
            },
            SquareState::White(Piece::Rook) | SquareState::Black(Piece::Rook) => {
                if dr == 0 || dc == 0 {
                    Ok(())
                } else {
                    Err(ChessError::IllegalMove)
                }
            },
            SquareState::White(Piece::Knight) | SquareState::Black(Piece::Knight) => {
                if (dr == 1 && dc == 2) || (dr == 2 && dc == 1) {
                    Ok(())
                } else {
                    Err(ChessError::IllegalMove)
                }
            },
            SquareState::White(Piece::Bishop) | SquareState::Black(Piece::Bishop) => {
                if dr == dc {
                    Ok(())
                } else {
                    Err(ChessError::IllegalMove)
                }
            },
            SquareState::White(Piece::Queen) | SquareState::Black(Piece::Queen) => {
                if dr == 0 || dc == 0 || dr == dc {
                    Ok(())
                } else {
                    Err(ChessError::IllegalMove)
                }
            },
            SquareState::White(Piece::King) | SquareState::Black(Piece::King) => {
                if dr <= 1 && dc <= 1 {
                    Ok(())
                } else {
                    Err(ChessError::IllegalMove)
                }
            },
            SquareState::Empty => Err(ChessError::MoveFromEmpty),
        }
    }

    /// Fails when the given square (the source of a move) holds a piece of the
    /// side that is not moving.
    pub fn is_not_enemy(&self, turn: &Team, row: usize, col: usize) -> (verdict: Result<
        (),
        ChessError,
    >)
        requires
            row < 8,
            col < 8,
        ensures
            verdict == source_check(self@[row as int][col as int], *turn),
    {
        match (turn, self.square(row, col)) {
            (Team::White, SquareState::Black(_)) | (Team::Black, SquareState::White(_)) => {
                Err(ChessError::MoveFromEnemyPiece)
            },
            _ => Ok(()),
        }
    }

    /// Fails when the given square (the destination of a move) holds a piece
    /// of the moving side.
    pub fn is_not_team(&self, turn: &Team, row: usize, col: usize) -> (verdict: Result<
        (),
        ChessError,
    >)
        requires
            row < 8,
            col < 8,
        ensures
            verdict == target_check(self@[row as int][col as int], *turn),
    {
        match (turn, self.square(row, col)) {
            (Team::White, SquareState::White(_)) | (Team::Black, SquareState::Black(_)) => {
                Err(ChessError::MoveToTeamPiece)
            },
            _ => Ok(()),
        }
    }

    /// Fails when both distances are zero, that is, when nothing would move.
    pub fn is_a_move(&self, dr: usize, dc: usize) -> (verdict: Result<(), ChessError>)
        ensures
            verdict == displacement_check(dr as int, dc as int),
    {
        if dr == 0 && dc == 0 {
            Err(ChessError::NotAMove)
        } else {
            Ok(())
        }
    }
}

} // verus!
