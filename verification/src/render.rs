//! The board as text: eight ranks from rank 8 down to rank 1 between ruled
//! lines, the files a to h from left to right, and under them the file letters.

use vstd::prelude::*;
use vstd::string::StringExecFns;
use crate::board::{is_grid, Board, Grid};
use crate::piece::{Piece, SquareState};
use crate::label::rank_digit;

verus! {

/// The two characters that stand for a kind of piece. The knight is `KN`, so
/// that it differs from the king.
pub open spec fn piece_text(piece: Piece) -> Seq<char> {
    match piece {
        Piece::Pawn => " P"@,
        Piece::Rook => " R"@,
        Piece::Knight => "KN"@,
        Piece::Bishop => " B"@,
        Piece::Queen => " Q"@,
        Piece::King => " K"@,
    }
}

/// The three characters that stand for a square: blank if it is empty, else
/// the letter of the side and the piece.
pub open spec fn square_text(sq: SquareState) -> Seq<char> {
    match sq {
        SquareState::Empty => "   "@,
        SquareState::White(piece) => "W"@ + piece_text(piece),
        SquareState::Black(piece) => "B"@ + piece_text(piece),
    }
}

/// The first `n` squares of `row`, each with a bar before it.
pub open spec fn cells_text(row: Seq<SquareState>, n: int) -> Seq<char>
    decreases n,
{
    if n <= 0 {
        Seq::empty()
    } else {
        cells_text(row, n - 1) + "|"@ + square_text(row[n - 1])
    }
}

/// The ruled line above and below each rank.
pub open spec fn rule_text() -> Seq<char> {
    "  +---+---+---+---+---+---+---+---+\n"@
}

/// The two lines of one rank: the ruled line above it, then the rank digit
/// and the eight squares between bars.
pub open spec fn rank_text(g: Grid, row: int) -> Seq<char> {
    rule_text() + seq![rank_digit(row), ' '] + cells_text(g[row], 8) + "|\n"@
}

/// The top `n` ranks, rank 8 first.
pub open spec fn ranks_text(g: Grid, n: int) -> Seq<char>
    decreases n,
{
    if n <= 0 {
        Seq::empty()
    } else {
        ranks_text(g, n - 1) + rank_text(g, 8 - n)
    }
}

/// The whole board as text.
pub open spec fn board_text(g: Grid) -> Seq<char> {
    ranks_text(g, 8) + rule_text() + "    a   b   c   d   e   f   g   h\n"@
}

/// Every piece has its own two characters, and every square its own three.
pub proof fn text_is_unambiguous(a: SquareState, b: SquareState)
    ensures
        square_text(a).len() == 3,
        square_text(a) == square_text(b) ==> a == b,
{
    reveal_strlit(" P");
    reveal_strlit(" R");
    reveal_strlit("KN");
    reveal_strlit(" B");
    reveal_strlit(" Q");
    reveal_strlit(" K");
    reveal_strlit("   ");
    reveal_strlit("W");
    reveal_strlit("B");
    if square_text(a) == square_text(b) {
        assert(square_text(a)[0] == square_text(b)[0]);
        assert(square_text(a)[1] == square_text(b)[1]);
        assert(square_text(a)[2] == square_text(b)[2]);
    }
}

fn rank_label(row: usize) -> (label: &'static str)
    requires
        row < 8,
    ensures
        label@ == seq![rank_digit(row as int), ' '],
{
    proof {
        reveal_strlit("1 ");
        reveal_strlit("2 ");
        reveal_strlit("3 ");
        reveal_strlit("4 ");
        reveal_strlit("5 ");
        reveal_strlit("6 ");
        reveal_strlit("7 ");
        reveal_strlit("8 ");
    }
    if row == 0 {
        "1 "
    } else if row == 1 {
        "2 "
    } else if row == 2 {
        "3 "
    } else if row == 3 {
        "4 "
    } else if row == 4 {
        "5 "
    } else if row == 5 {
        "6 "
    } else if row == 6 {
        "7 "
    } else {
        "8 "
    }
}

impl Piece {
    /// The piece as text.
    pub fn render(&self) -> (text: String)
        ensures
            text@ == piece_text(*self),
    {
        String::from_str(
            match self {
                Piece::Pawn => " P",
                Piece::Rook => " R",
                Piece::Knight => "KN",
                Piece::Bishop => " B",
                Piece::Queen => " Q",
                Piece::King => " K",
            },
        )
    }
}

impl SquareState {
    /// The square as text.
    pub fn render(&self) -> (text: String)
        ensures
            text@ == square_text(*self),
    {
        match self {
            SquareState::Empty => String::from_str("   "),
            SquareState::White(p) => {
                let mut text = String::from_str("W");
                text.append(p.render().as_str());
                text
            },
            SquareState::Black(p) => {
                let mut text = String::from_str("B");
                text.append(p.render().as_str());
                text
            },
        }
    }
}

impl Board {
    /// The board as text.
    pub fn render(&self) -> (text: String)
        ensures
            text@ == board_text(self@),
    {
        proof {
            self.has_all_squares();
        }
        let mut text = String::new();
        let mut done: usize = 0;
        while done < 8
            invariant
                is_grid(self@),
                done <= 8,
                text@ == ranks_text(self@, done as int),
            decreases 8 - done,
        {
            let row = 7 - done;
            let ghost above = text@;
            text.append("  +---+---+---+---+---+---+---+---+\n");
            text.append(rank_label(row));
            for col in 0..8usize
                invariant
                    is_grid(self@),
                    row < 8,
                    text@ == above + rule_text() + seq![rank_digit(row as int), ' '] + cells_text(
                        self@[row as int],
                        col as int,
                    ),
            {
                text.append("|");
                text.append(self.square(row, col).render().as_str());
            }
            text.append("|\n");
            done += 1;
        }
        text.append("  +---+---+---+---+---+---+---+---+\n");
        text.append("    a   b   c   d   e   f   g   h\n");
        text
    }
}

} // verus!
