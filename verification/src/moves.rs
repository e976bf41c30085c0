//! Making a move: the two labels are read, the move is judged, and only a
//! legal move changes the board.

use vstd::prelude::*;
use crate::board::{initial_grid, is_grid, with_square, Board, Grid};
use crate::count::{
    any_piece, copies_of, count_squares, count_with_square, initial_piece_count, piece_count,
    same_as, tally,
};
use crate::piece::{ChessError, Piece, SquareState, Team};
use crate::rules::legality;
use crate::label::parse_square;

verus! {

/// The source and the destination of the move that the labels `from` and `to`
/// ask for, if both are labels and the move is legal for `turn`; otherwise the
/// violation. A label that cannot be read is reported before anything else.
pub open spec fn requested_move(g: Grid, turn: Team, from: Seq<char>, to: Seq<char>) -> Result<
    ((int, int), (int, int)),
    ChessError,
> {
    match (parse_square(from), parse_square(to)) {
        (Some(source), Some(target)) => match legality(
            g,
            turn,
            source.0,
            source.1,
            target.0,
            target.1,
        ) {
            Ok(_) => Ok((source, target)),
            Err(e) => Err(e),
        },
        _ => Err(ChessError::InvalidSquare),
    }
}

/// The grid after the contents of (`r1`, `c1`) have gone to (`r2`, `c2`):
/// the destination holds what the source held, and the source is empty.
pub open spec fn relocated(g: Grid, r1: int, c1: int, r2: int, c2: int) -> Grid {
    with_square(with_square(g, r2, c2, g[r1][c1]), r1, c1, SquareState::Empty)
}

/// The piece that `turn` takes by moving onto a square that holds `target`.
pub open spec fn captured(target: SquareState, turn: Team) -> Option<Piece> {
    if target.owner() == Some(turn.opponent()) {
        target.piece()
    } else {
        None
    }
}

/// The grid that a call of `move_piece` leaves: the pieces relocated if the
/// move is legal, the grid as it was if not.
pub open spec fn grid_after(g: Grid, turn: Team, from: Seq<char>, to: Seq<char>) -> Grid {
    match requested_move(g, turn, from, to) {
        Ok((source, target)) => relocated(g, source.0, source.1, target.0, target.1),
        Err(_) => g,
    }
}

/// What a call of `move_piece` returns: the piece taken, if any, when the move
/// is legal, and the violation if not.
pub open spec fn move_outcome(g: Grid, turn: Team, from: Seq<char>, to: Seq<char>) -> Result<
    Option<Piece>,
    ChessError,
> {
    match requested_move(g, turn, from, to) {
        Ok((_, target)) => Ok(captured(g[target.0][target.1], turn)),
        Err(e) => Err(e),
    }
}

/// How many pieces leave the board with a call that returns `outcome`.
pub open spec fn pieces_taken(outcome: Result<Option<Piece>, ChessError>) -> nat {
    match outcome {
        Ok(Some(_)) => 1,
        _ => 0,
    }
}

/// One call of `move_piece`: the side that moves and the two labels.
pub struct Request {
    pub turn: Team,
    pub from: Seq<char>,
    pub to: Seq<char>,
}

/// The grid that is left when the calls in `requests` have been made in turn,
/// starting from `g`.
pub open spec fn grid_after_all(g: Grid, requests: Seq<Request>) -> Grid
    decreases requests.len(),
{
    if requests.len() == 0 {
        g
    } else {
        let last = requests.last();
        grid_after(grid_after_all(g, requests.drop_last()), last.turn, last.from, last.to)
    }
}

/// Relocating a piece takes out of a count what stood on the destination, and
/// adds the square that falls empty.
pub proof fn count_relocated(
    g: Grid,
    r1: int,
    c1: int,
    r2: int,
    c2: int,
    wanted: spec_fn(SquareState) -> bool,
)
    requires
        is_grid(g),
        0 <= r1 < 8,
        0 <= c1 < 8,
        0 <= r2 < 8,
        0 <= c2 < 8,
    ensures
        is_grid(relocated(g, r1, c1, r2, c2)),
        count_squares(relocated(g, r1, c1, r2, c2), wanted) + tally(wanted, g[r2][c2])
            == count_squares(g, wanted) + tally(wanted, SquareState::Empty),
{
    let placed = with_square(g, r2, c2, g[r1][c1]);
    count_with_square(g, r2, c2, g[r1][c1], wanted);
    count_with_square(placed, r1, c1, SquareState::Empty, wanted);
}

/// A call of `move_piece` leaves a grid a grid.
pub proof fn grid_after_is_grid(g: Grid, turn: Team, from: Seq<char>, to: Seq<char>)
    requires
        is_grid(g),
    ensures
        is_grid(grid_after(g, turn, from, to)),
{
    if let Ok((source, target)) = requested_move(g, turn, from, to) {
        count_relocated(g, source.0, source.1, target.0, target.1, any_piece());
    }
}

/// No call of `move_piece` adds a piece: the count falls by one when a piece
/// is taken and stays the same otherwise, whether the move was made or refused.
pub proof fn move_never_adds_pieces(g: Grid, turn: Team, from: Seq<char>, to: Seq<char>)
    requires
        is_grid(g),
    ensures
        piece_count(grid_after(g, turn, from, to)) + pieces_taken(move_outcome(g, turn, from, to))
            == piece_count(g),
        piece_count(grid_after(g, turn, from, to)) <= piece_count(g),
{
    if let Ok((source, target)) = requested_move(g, turn, from, to) {
        count_relocated(g, source.0, source.1, target.0, target.1, any_piece());
    }
}

/// No call of `move_piece` creates or duplicates a piece: of each kind of
/// piece of each side the board holds as many as before, or one fewer if the
/// call took one.
pub proof fn move_never_creates_pieces(
    g: Grid,
    turn: Team,
    from: Seq<char>,
    to: Seq<char>,
    piece: SquareState,
)
    requires
        is_grid(g),
        piece !is Empty,
    ensures
        copies_of(grid_after(g, turn, from, to), piece) <= copies_of(g, piece),
        copies_of(g, piece) <= copies_of(grid_after(g, turn, from, to), piece) + pieces_taken(
            move_outcome(g, turn, from, to),
        ),
{
    if let Ok((source, target)) = requested_move(g, turn, from, to) {
        count_relocated(g, source.0, source.1, target.0, target.1, same_as(piece));
    }
}

/// Along any sequence of calls, successful or not, the number of pieces never
/// increases: after all the calls it is at most what it was after the first
/// `n` of them.
pub proof fn piece_count_never_increases(g: Grid, requests: Seq<Request>, n: int)
    requires
        is_grid(g),
        0 <= n <= requests.len(),
    ensures
        is_grid(grid_after_all(g, requests)),
        piece_count(grid_after_all(g, requests)) <= piece_count(
            grid_after_all(g, requests.take(n)),
        ),
    decreases requests.len(),
{
    if requests.len() > 0 {
        let earlier = requests.drop_last();
        let last = requests.last();
        if n == requests.len() {
            assert(requests.take(n) =~= requests);
            piece_count_never_increases(g, earlier, 0);
        } else {
            assert(requests.take(n) =~= earlier.take(n));
            piece_count_never_increases(g, earlier, n);
        }
        grid_after_is_grid(grid_after_all(g, earlier), last.turn, last.from, last.to);
        move_never_adds_pieces(grid_after_all(g, earlier), last.turn, last.from, last.to);
    }
}

/// After any sequence of calls from the starting position, at most 32 pieces
/// stand on the board.
pub proof fn at_most_32_pieces(requests: Seq<Request>)
    ensures
        piece_count(grid_after_all(initial_grid(), requests)) <= 32,
{
    initial_piece_count();
    piece_count_never_increases(initial_grid(), requests, 0);
}

/// A legal pawn move to another file takes the piece of the other side that
/// stands on the destination, and the call returns that piece's kind.
pub proof fn diagonal_pawn_move_captures(
    g: Grid,
    turn: Team,
    from: Seq<char>,
    to: Seq<char>,
    source: (int, int),
    target: (int, int),
)
    requires
        requested_move(g, turn, from, to) == Ok::<_, ChessError>((source, target)),
        g[source.0][source.1].piece() == Some(Piece::Pawn),
        source.1 != target.1,
    ensures
        g[target.0][target.1].owner() == Some(turn.opponent()),
        g[target.0][target.1].piece() is Some,
        move_outcome(g, turn, from, to) == Ok::<_, ChessError>(g[target.0][target.1].piece()),
{
}

/// A legal pawn move along its file goes to an empty square, and the call
/// returns no piece.
pub proof fn straight_pawn_move_captures_nothing(
    g: Grid,
    turn: Team,
    from: Seq<char>,
    to: Seq<char>,
    source: (int, int),
    target: (int, int),
)
    requires
        requested_move(g, turn, from, to) == Ok::<_, ChessError>((source, target)),
        g[source.0][source.1].piece() == Some(Piece::Pawn),
        source.1 == target.1,
    ensures
        g[target.0][target.1] is Empty,
        move_outcome(g, turn, from, to) == Ok::<Option<Piece>, ChessError>(None),
{
}

/// A call that asks to move a piece of the other side is refused as a move
/// from an enemy piece, whatever the destination and the shape of the move,
/// and leaves the board as it was.
pub proof fn move_from_enemy_piece_is_refused(
    g: Grid,
    turn: Team,
    from: Seq<char>,
    to: Seq<char>,
    source: (int, int),
)
    requires
        parse_square(from) == Some(source),
        parse_square(to) is Some,
        g[source.0][source.1].owner() == Some(turn.opponent()),
    ensures
        move_outcome(g, turn, from, to) == Err::<Option<Piece>, _>(ChessError::MoveFromEnemyPiece),
        grid_after(g, turn, from, to) == g,
{
}

/// A call that asks to move onto a piece of the moving side is refused as a
/// move to a team piece, whatever the shape of the move, and leaves the board
/// as it was. This is stated of moves whose source holds no piece of the other
/// side, since that violation is reported first.
pub proof fn move_to_team_piece_is_refused(
    g: Grid,
    turn: Team,
    from: Seq<char>,
    to: Seq<char>,
    source: (int, int),
    target: (int, int),
)
    requires
        parse_square(from) == Some(source),
        parse_square(to) == Some(target),
        g[source.0][source.1].owner() != Some(turn.opponent()),
        g[target.0][target.1].owner() == Some(turn),
    ensures
        move_outcome(g, turn, from, to) == Err::<Option<Piece>, _>(ChessError::MoveToTeamPiece),
        grid_after(g, turn, from, to) == g,
{
}

impl Board {
    /// Moves the piece on the square labelled `from` to the square labelled
    /// `to`, if that is a legal move for `turn`, and returns the piece it
    /// takes. Otherwise the board stays as it is and the violation is returned.
    pub fn move_piece(&mut self, turn: Team, from: &str, to: &str) -> (result: Result<
        Option<Piece>,
        ChessError,
    >)
        ensures
            result == move_outcome(old(self)@, turn, from@, to@),
            final(self)@ == grid_after(old(self)@, turn, from@, to@),
            piece_count(final(self)@) + pieces_taken(result) == piece_count(old(self)@),
    {
        proof {
            self.has_all_squares();
            move_never_adds_pieces(self@, turn, from@, to@);
        }
        let (r1, c1) = Board::convert_square_number(from)?;
        let (r2, c2) = Board::convert_square_number(to)?;

        self.is_legal_move(turn, r1, c1, r2, c2)?;

        let killed = match (turn, self.square(r2, c2)) {
            (Team::White, SquareState::Black(p)) | (Team::Black, SquareState::White(p)) => Some(p),
            _ => None,
        };
        let mover = self.square(r1, c1);
        self.place(r2, c2, mover);
        self.place(r1, c1, SquareState::Empty);

        Ok(killed)
    }
}

} // verus!
