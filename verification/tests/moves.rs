use chessboard::{Board, ChessError, Team};
use chessboard::Piece::{Bishop, King, Knight, Pawn, Queen, Rook};
use chessboard::SquareState::{Black, Empty, White};

fn piece_count(board: &Board) -> usize {
    let mut count = 0;
    for row in 0..8 {
        for col in 0..8 {
            if board.square(row, col) != Empty {
                count += 1;
            }
        }
    }
    count
}

#[test]
fn test_pawn_to_empty() {
    let mut board = Board::new();
    let _ = board.move_piece(Team::White, "2c", "3c");

    let expected = Board::from_squares([
        [
            White(Rook),
            White(Knight),
            White(Bishop),
            White(Queen),
            White(King),
            White(Bishop),
            White(Knight),
            White(Rook),
        ],
        [
            White(Pawn),
            White(Pawn),
            Empty,
            White(Pawn),
            White(Pawn),
            White(Pawn),
            White(Pawn),
            White(Pawn),
        ],
        [Empty, Empty, White(Pawn), Empty, Empty, Empty, Empty, Empty],
        [Empty; 8],
        [Empty; 8],
        [Empty; 8],
        [Black(Pawn); 8],
        [
            Black(Rook),
            Black(Knight),
            Black(Bishop),
            Black(Queen),
            Black(King),
            Black(Bishop),
            Black(Knight),
            Black(Rook),
        ],
    ]);

    assert_eq!(board, expected);
}

#[test]
fn starting_position() {
    let board = Board::new();
    let back = [Rook, Knight, Bishop, Queen, King, Bishop, Knight, Rook];
    for col in 0..8 {
        assert_eq!(board.square(0, col), White(back[col]));
        assert_eq!(board.square(1, col), White(Pawn));
        for row in 2..6 {
            assert_eq!(board.square(row, col), Empty);
        }
        assert_eq!(board.square(6, col), Black(Pawn));
        assert_eq!(board.square(7, col), Black(back[col]));
    }
    // The queens stand on file d, the kings on file e.
    assert_eq!(board.square(0, 3), White(Queen));
    assert_eq!(board.square(0, 4), White(King));
    assert_eq!(board.square(7, 3), Black(Queen));
    assert_eq!(board.square(7, 4), Black(King));
    assert_eq!(piece_count(&board), 32);
    assert_eq!(Board::from_squares(board.squares()), board);
}

#[test]
fn pawn_one_step_forward() {
    let mut board = Board::new();
    assert_eq!(board.move_piece(Team::White, "2c", "3c"), Ok(None));
    assert_eq!(board.square(2, 2), White(Pawn));
    assert_eq!(board.square(1, 2), Empty);
    for row in 0..8 {
        for col in 0..8 {
            if (row, col) != (1, 2) && (row, col) != (2, 2) {
                assert_eq!(board.square(row, col), Board::new().square(row, col));
            }
        }
    }
}

#[test]
fn pawn_four_steps_is_illegal() {
    let mut board = Board::new();
    assert_eq!(board.move_piece(Team::White, "2c", "5c"), Err(ChessError::IllegalMove));
    assert_eq!(board, Board::new());
}

#[test]
fn same_square_is_refused() {
    let mut board = Board::new();
    // The rook on a1 is White's own piece, and the destination is checked
    // before the two squares are compared.
    assert_eq!(board.move_piece(Team::White, "1a", "1a"), Err(ChessError::MoveToTeamPiece));
    assert_eq!(board.move_piece(Team::Black, "1a", "1a"), Err(ChessError::MoveFromEnemyPiece));
    assert_eq!(board.move_piece(Team::White, "4a", "4a"), Err(ChessError::NotAMove));
    assert_eq!(board.move_piece(Team::Black, "4a", " 4A "), Err(ChessError::NotAMove));
    assert_eq!(board, Board::new());
}

#[test]
fn pawn_takes_pawn() {
    let mut squares = Board::new().squares();
    squares[4][3] = Black(Pawn);
    squares[6][3] = Empty;
    squares[3][2] = White(Pawn);
    squares[1][2] = Empty;
    let mut board = Board::from_squares(squares);

    assert_eq!(board.move_piece(Team::White, "4c", "5d"), Ok(Some(Pawn)));

    squares[4][3] = White(Pawn);
    squares[3][2] = Empty;
    assert_eq!(board, Board::from_squares(squares));
    assert_eq!(piece_count(&board), 31);
}

#[test]
fn the_piece_taken_is_the_one_on_the_destination() {
    let mut squares = [[Empty; 8]; 8];
    squares[3][2] = White(Pawn);
    squares[4][3] = Black(Knight);
    squares[0][0] = White(Rook);
    squares[0][7] = Black(Queen);
    squares[7][7] = White(Bishop);
    let mut board = Board::from_squares(squares);

    assert_eq!(board.move_piece(Team::White, "4c", "5d"), Ok(Some(Knight)));
    assert_eq!(board.move_piece(Team::White, "1a", "1h"), Ok(Some(Queen)));
    assert_eq!(board.move_piece(Team::White, "1h", "5h"), Ok(None));
    assert_eq!(board.move_piece(Team::White, "8h", "1a"), Ok(None));

    let mut expected = [[Empty; 8]; 8];
    expected[4][3] = White(Pawn);
    expected[4][7] = White(Rook);
    expected[0][0] = White(Bishop);
    assert_eq!(board, Board::from_squares(expected));
}

#[test]
fn black_takes_too() {
    let mut squares = [[Empty; 8]; 8];
    squares[4][4] = Black(Pawn);
    squares[3][5] = White(King);
    squares[3][4] = White(Pawn);
    let mut board = Board::from_squares(squares);

    assert_eq!(board.move_piece(Team::Black, "5e", "4e"), Err(ChessError::IllegalMove));
    assert_eq!(board.move_piece(Team::Black, "5e", "4d"), Err(ChessError::IllegalMove));
    assert_eq!(board.move_piece(Team::Black, "5E", "4F"), Ok(Some(King)));
    assert_eq!(board.square(3, 5), Black(Pawn));
    assert_eq!(board.square(4, 4), Empty);
    assert_eq!(board.move_piece(Team::Black, "4f", "3f"), Ok(None));
    assert_eq!(piece_count(&board), 2);
}

#[test]
fn labels_are_read_before_the_move_is_judged() {
    let mut board = Board::new();
    assert_eq!(board.move_piece(Team::White, "c2", "3c"), Err(ChessError::InvalidSquare));
    assert_eq!(board.move_piece(Team::White, "2c", "c3"), Err(ChessError::InvalidSquare));
    assert_eq!(board.move_piece(Team::White, "", ""), Err(ChessError::InvalidSquare));
    // The source holds a black piece, but the destination is no label.
    assert_eq!(board.move_piece(Team::White, "7a", "9a"), Err(ChessError::InvalidSquare));
    assert_eq!(board.move_piece(Team::White, "2c3c", "3c"), Err(ChessError::InvalidSquare));
    assert_eq!(board, Board::new());
}

#[test]
fn labels_may_be_padded() {
    let mut board = Board::new();
    assert_eq!(board.move_piece(Team::White, " 2c ", "\t3C\n"), Ok(None));
    assert_eq!(board.square(2, 2), White(Pawn));
    assert_eq!(board.square(1, 2), Empty);
}

#[test]
fn every_violation_leaves_the_board_alone() {
    let mut board = Board::new();
    assert_eq!(board.move_piece(Team::White, "zz", "3c"), Err(ChessError::InvalidSquare));
    assert_eq!(board.move_piece(Team::White, "4d", "4d"), Err(ChessError::NotAMove));
    assert_eq!(board.move_piece(Team::White, "4d", "5d"), Err(ChessError::MoveFromEmpty));
    assert_eq!(board.move_piece(Team::White, "7d", "6d"), Err(ChessError::MoveFromEnemyPiece));
    assert_eq!(board.move_piece(Team::White, "2d", "4d"), Err(ChessError::IllegalMove));
    assert_eq!(board.move_piece(Team::White, "1d", "2d"), Err(ChessError::MoveToTeamPiece));
    assert_eq!(board, Board::new());
}

#[test]
fn enemy_source_is_named_whatever_the_shape() {
    let mut board = Board::new();
    assert_eq!(board.move_piece(Team::White, "7a", "6a"), Err(ChessError::MoveFromEnemyPiece));
    assert_eq!(board.move_piece(Team::White, "7a", "2a"), Err(ChessError::MoveFromEnemyPiece));
    assert_eq!(board.move_piece(Team::White, "8b", "4h"), Err(ChessError::MoveFromEnemyPiece));
    assert_eq!(board.move_piece(Team::Black, "2a", "3a"), Err(ChessError::MoveFromEnemyPiece));
    assert_eq!(board.move_piece(Team::Black, "1b", "3c"), Err(ChessError::MoveFromEnemyPiece));
    assert_eq!(board, Board::new());
}

#[test]
fn own_destination_is_named_whatever_the_shape() {
    let mut board = Board::new();
    assert_eq!(board.move_piece(Team::White, "1a", "2a"), Err(ChessError::MoveToTeamPiece));
    assert_eq!(board.move_piece(Team::White, "1b", "2d"), Err(ChessError::MoveToTeamPiece));
    assert_eq!(board.move_piece(Team::White, "1a", "2h"), Err(ChessError::MoveToTeamPiece));
    assert_eq!(board.move_piece(Team::White, "5e", "2e"), Err(ChessError::MoveToTeamPiece));
    assert_eq!(board.move_piece(Team::Black, "8e", "7e"), Err(ChessError::MoveToTeamPiece));
    assert_eq!(board, Board::new());
}

#[test]
fn piece_count_never_grows() {
    let mut board = Board::new();
    let calls = [
        (Team::White, "2e", "3e", 32),
        (Team::Black, "7d", "6d", 32),
        (Team::White, "3e", "5e", 32),
        (Team::White, "3e", "4e", 32),
        (Team::Black, "6d", "5d", 32),
        (Team::White, "4e", "5d", 31),
        (Team::Black, "8e", "5e", 31),
        (Team::Black, "8d", "6d", 31),
        (Team::Black, "6d", "5d", 30),
        (Team::White, "1a", "8a", 29),
        (Team::White, "1a", "8a", 29),
        (Team::Black, "8b", "8a", 29),
        (Team::Black, "8b", "6a", 29),
        (Team::White, "8a", "8b", 29),
        (Team::White, "8a", "8c", 29),
        (Team::White, "8b", "8c", 28),
        (Team::Black, "x", "y", 28),
        (Team::Black, "8e", "8d", 28),
        (Team::Black, "8d", "8c", 27),
    ];
    let mut before = piece_count(&board);
    assert_eq!(before, 32);
    for (turn, from, to, expected) in calls {
        let result = board.move_piece(turn, from, to);
        let after = piece_count(&board);
        assert!(after <= before);
        assert!(after <= 32);
        assert_eq!(after, expected);
        assert_eq!(before - after, if matches!(result, Ok(Some(_))) { 1 } else { 0 });
        before = after;
    }
}
