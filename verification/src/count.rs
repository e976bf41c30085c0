//! Counting the squares of a grid that hold a piece, or one piece in
//! particular.

use vstd::prelude::*;
use crate::board::{initial_grid, with_square, Grid};
use crate::piece::SquareState;

verus! {

/// 1 for a square that is `wanted`, 0 for any other.
pub open spec fn tally(wanted: spec_fn(SquareState) -> bool, sq: SquareState) -> nat {
    if wanted(sq) {
        1
    } else {
        0
    }
}

/// How many squares of `row` are `wanted`.
pub open spec fn count_in_row(row: Seq<SquareState>, wanted: spec_fn(SquareState) -> bool) -> nat
    decreases row.len(),
{
    if row.len() == 0 {
        0
    } else {
        count_in_row(row.drop_last(), wanted) + tally(wanted, row.last())
    }
}

/// How many squares of `g` are `wanted`.
pub open spec fn count_squares(g: Grid, wanted: spec_fn(SquareState) -> bool) -> nat
    decreases g.len(),
{
    if g.len() == 0 {
        0
    } else {
        count_squares(g.drop_last(), wanted) + count_in_row(g.last(), wanted)
    }
}

/// The squares that hold a piece.
pub open spec fn any_piece() -> spec_fn(SquareState) -> bool {
    |sq: SquareState| sq !is Empty
}

/// The squares that hold what `sq` holds: the same kind of piece of the same
/// side.
pub open spec fn same_as(sq: SquareState) -> spec_fn(SquareState) -> bool {
    |other: SquareState| other == sq
}

/// How many pieces stand on the grid.
pub open spec fn piece_count(g: Grid) -> nat {
    count_squares(g, any_piece())
}

/// How many squares of the grid hold what `sq` holds.
pub open spec fn copies_of(g: Grid, sq: SquareState) -> nat {
    count_squares(g, same_as(sq))
}

proof fn lemma_row_update(
    row: Seq<SquareState>,
    col: int,
    sq: SquareState,
    wanted: spec_fn(SquareState) -> bool,
)
    requires
        0 <= col < row.len(),
    ensures
        count_in_row(row.update(col, sq), wanted) + tally(wanted, row[col]) == count_in_row(
            row,
            wanted,
        ) + tally(wanted, sq),
    decreases row.len(),
{
    if col == row.len() - 1 {
        assert(row.update(col, sq).drop_last() =~= row.drop_last());
    } else {
        assert(row.update(col, sq).drop_last() =~= row.drop_last().update(col, sq));
        lemma_row_update(row.drop_last(), col, sq, wanted);
    }
}

proof fn lemma_rows_update(
    g: Grid,
    r: int,
    row: Seq<SquareState>,
    wanted: spec_fn(SquareState) -> bool,
)
    requires
        0 <= r < g.len(),
    ensures
        count_squares(g.update(r, row), wanted) + count_in_row(g[r], wanted) == count_squares(
            g,
            wanted,
        ) + count_in_row(row, wanted),
    decreases g.len(),
{
    if r == g.len() - 1 {
        assert(g.update(r, row).drop_last() =~= g.drop_last());
    } else {
        assert(g.update(r, row).drop_last() =~= g.drop_last().update(r, row));
        lemma_rows_update(g.drop_last(), r, row, wanted);
    }
}

/// Overwriting one square changes a count by what that square gains or loses.
pub proof fn count_with_square(
    g: Grid,
    row: int,
    col: int,
    sq: SquareState,
    wanted: spec_fn(SquareState) -> bool,
)
    requires
        0 <= row < g.len(),
        0 <= col < g[row].len(),
    ensures
        count_squares(with_square(g, row, col, sq), wanted) + tally(wanted, g[row][col])
            == count_squares(g, wanted) + tally(wanted, sq),
{
    lemma_row_update(g[row], col, sq, wanted);
    lemma_rows_update(g, row, g[row].update(col, sq), wanted);
}

proof fn lemma_uniform_row(row: Seq<SquareState>, wanted: spec_fn(SquareState) -> bool, each: nat)
    requires
        forall|c: int| 0 <= c < row.len() ==> tally(wanted, #[trigger] row[c]) == each,
    ensures
        count_in_row(row, wanted) == each * row.len(),
    decreases row.len(),
{
    if row.len() > 0 {
        lemma_uniform_row(row.drop_last(), wanted, each);
        assert(each * row.len() == each * (row.len() - 1) + each) by (nonlinear_arith);
    }
}

/// The starting position holds 32 pieces.
pub proof fn initial_piece_count()
    ensures
        piece_count(initial_grid()) == 32,
{
    let g = initial_grid();
    assert forall|r: int| 0 <= r < 8 implies count_in_row(#[trigger] g[r], any_piece()) == if 2 <= r
        < 6 {
        0nat
    } else {
        8nat
    } by {
        lemma_uniform_row(g[r], any_piece(), if 2 <= r < 6 { 0 } else { 1 });
    }
    reveal_with_fuel(count_squares, 9);
}

} // verus!
