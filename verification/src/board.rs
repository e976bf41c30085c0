//! The board: an 8×8 grid of squares, and the position a game starts from.

use vstd::prelude::*;
use crate::count::{initial_piece_count, piece_count};
use crate::piece::{Piece, SquareState, Team};

verus! {

/// The board as a mathematical value: eight rows from rank 1 upwards, each a
/// sequence of eight squares from file a onwards.
pub type Grid = Seq<Seq<SquareState>>;

/// A grid has eight rows of eight squares.
pub open spec fn is_grid(g: Grid) -> bool {
    &&& g.len() == 8
    &&& forall|r: int| 0 <= r < 8 ==> (#[trigger] g[r]).len() == 8
}

/// The piece that starts in column `col` of a side's back rank: the rooks in
/// the corners, then the knights, then the bishops, the queen on file d and
/// the king on file e.
pub open spec fn back_rank(col: int) -> Piece {
    if col == 0 || col == 7 {
        Piece::Rook
    } else if col == 1 || col == 6 {
        Piece::Knight
    } else if col == 2 || col == 5 {
        Piece::Bishop
    } else if col == 3 {
        Piece::Queen
    } else {
        Piece::King
    }
}

/// What the square at (`row`, `col`) holds when a game starts.
pub open spec fn initial_square(row: int, col: int) -> SquareState {
    if row == 0 {
        SquareState::White(back_rank(col))
    } else if row == 1 {
        SquareState::White(Piece::Pawn)
    } else if row == 6 {
        SquareState::Black(Piece::Pawn)
    } else if row == 7 {
        SquareState::Black(back_rank(col))
    } else {
        SquareState::Empty
    }
}

/// The starting position.
pub open spec fn initial_grid() -> Grid {
    Seq::new(8, |r: int| Seq::new(8, |c: int| initial_square(r, c)))
}

/// The starting position is the same for both sides, mirrored across the
/// middle of the board: where White has a piece, Black has the same piece on
/// the square opposite, and the other way round.
pub proof fn starting_position_is_mirrored(row: int, col: int)
    requires
        0 <= row < 8,
        0 <= col < 8,
    ensures
        initial_square(7 - row, col).piece() == initial_square(row, col).piece(),
        initial_square(row, col).owner() == Some(Team::White) <==> initial_square(
            7 - row,
            col,
        ).owner() == Some(Team::Black),
        initial_grid()[row][col] == initial_square(row, col),
{
}

/// The grid that an array of rows stands for.
pub open spec fn grid_of(squares: [[SquareState; 8]; 8]) -> Grid {
    Seq::new(8, |r: int| squares[r]@)
}

/// The grid `g` with `sq` on the square at (`row`, `col`).
pub open spec fn with_square(g: Grid, row: int, col: int, sq: SquareState) -> Grid {
    g.update(row, g[row].update(col, sq))
}

/// An 8×8 chess board. Row 0 is rank 1, column 0 is file a.
#[derive(Debug, PartialEq, Eq)]
pub struct Board([[SquareState; 8]; 8]);

impl View for Board {
    type V = Grid;

    closed spec fn view(&self) -> Grid {
        grid_of(self.0)
    }
}

impl Board {
    /// Every board has its 64 squares.
    pub proof fn has_all_squares(&self)
        ensures
            is_grid(self@),
    {
    }

    /// A board in the starting position.
    pub fn new() -> (board: Board)
        ensures
            board@ == initial_grid(),
            piece_count(board@) == 32,
    {
        let mut board = [[SquareState::Empty; 8]; 8];

        let fst_row = [
            Piece::Rook,
            Piece::Knight,
            Piece::Bishop,
            Piece::Queen,
            Piece::King,
            Piece::Bishop,
            Piece::Knight,
            Piece::Rook,
        ];

        for col in 0..8usize
            invariant
                forall|c: int| 0 <= c < 8 ==> fst_row[c] == back_rank(c),
                forall|r: int, c: int|
                    0 <= r < 8 && 0 <= c < 8 ==> #[trigger] board[r][c] == if c < col {
                        initial_square(r, c)
                    } else {
                        SquareState::Empty
                    },
        {
            board[0][col] = SquareState::White(fst_row[col]);
            board[7][col] = SquareState::Black(fst_row[col]);
            board[1][col] = SquareState::White(Piece::Pawn);
            board[6][col] = SquareState::Black(Piece::Pawn);
        }

        let board = Board(board);
        proof {
            assert(board@ =~~= initial_grid());
            initial_piece_count();
        }
        board
    }

    /// The board whose rows are `squares`, rank 1 first.
    pub fn from_squares(squares: [[SquareState; 8]; 8]) -> (board: Board)
        ensures
            board@ == grid_of(squares),
    {
        Board(squares)
    }

    /// The rows of the board, rank 1 first.
    pub fn squares(&self) -> (squares: [[SquareState; 8]; 8])
        ensures
            grid_of(squares) == self@,
    {
        self.0
    }

    /// What the square at (`row`, `col`) holds.
    pub fn square(&self, row: usize, col: usize) -> (sq: SquareState)
        requires
            row < 8,
            col < 8,
        ensures
            sq == self@[row as int][col as int],
    {
        self.0[row][col]
    }

    /// Overwrites the square at (`row`, `col`) with `sq`.
    pub(crate) fn place(&mut self, row: usize, col: usize, sq: SquareState)
        requires
            row < 8,
            col < 8,
        ensures
            final(self)@ == with_square(old(self)@, row as int, col as int, sq),
    {
        self.0[row][col] = sq;
    }
}

} // verus!
