//! Move legality: self-moves, capability checks, forward-only movement,
//! pawn captures, and step-over blocking.
use pro_chess::board::{to_board_index, BoardRecource, BOARD_LEN};
use pro_chess::piece::{Piece, PieceTypes, Rules};

fn empty_board(turn: bool) -> BoardRecource {
    let mut board = BoardRecource::default();
    board.grid = vec![None; BOARD_LEN];
    board.turn = turn;
    board
}

fn put(board: &mut BoardRecource, c: usize, r: usize, t: PieceTypes, color: bool) {
    board.grid[to_board_index(c, r)] = Some(Piece::new(t, color, Rules::get_rules(t)));
}

#[test]
fn no_square_moves_to_itself() {
    let mut board = BoardRecource::default();
    board.setup_board();
    for s in 0..BOARD_LEN {
        assert!(!board.is_move_legal(s, s));
    }
}

#[test]
fn out_of_range_squares_are_illegal() {
    let mut board = BoardRecource::default();
    board.setup_board();
    assert!(!board.is_move_legal(0, BOARD_LEN));
    assert!(!board.is_move_legal(BOARD_LEN, 0));
    assert!(!board.is_move_legal(BOARD_LEN + 40, BOARD_LEN + 41));
    assert!(board.get_possible_moves(BOARD_LEN + 3).is_empty());
}

#[test]
fn wrong_turn_is_illegal() {
    let mut board = BoardRecource::default();
    board.setup_board();
    // White to move: a black pawn may not advance.
    assert!(!board.is_move_legal(to_board_index(3, 1), to_board_index(3, 2)));
    // An empty source square has no legal move.
    assert!(!board.is_move_legal(to_board_index(8, 8), to_board_index(8, 9)));
}

#[test]
fn radial_jump_distances() {
    let mut board = empty_board(true);
    put(&mut board, 0, 0, PieceTypes::Knight, true);
    // Squared distance 5 is divisible by 5 and within the cap of 5.
    assert!(board.is_move_legal(to_board_index(0, 0), to_board_index(1, 2)));
    assert!(board.is_move_legal(to_board_index(0, 0), to_board_index(2, 1)));
    // Squared distance 2 is not divisible by 5.
    assert!(!board.is_move_legal(to_board_index(0, 0), to_board_index(1, 1)));
    // Squared distance 10 is divisible by 5 but over the knight's cap.
    assert!(!board.is_move_legal(to_board_index(0, 0), to_board_index(1, 3)));
}

#[test]
fn radial_jump_wide_cap() {
    let mut board = empty_board(true);
    put(&mut board, 0, 0, PieceTypes::GrandCommander, true);
    // Squared distance 20 is within the commander's cap of 24.
    assert!(board.is_move_legal(to_board_index(0, 0), to_board_index(2, 4)));
    // Squared distance 25 is divisible by 5 but over the cap.
    assert!(!board.is_move_legal(to_board_index(0, 0), to_board_index(3, 4)));
}

#[test]
fn king_single_step_any_direction() {
    let mut board = empty_board(true);
    put(&mut board, 5, 5, PieceTypes::King, true);
    assert!(board.is_move_legal(to_board_index(5, 5), to_board_index(6, 5)));
    assert!(board.is_move_legal(to_board_index(5, 5), to_board_index(5, 4)));
    assert!(board.is_move_legal(to_board_index(5, 5), to_board_index(6, 6)));
    assert!(board.is_move_legal(to_board_index(5, 5), to_board_index(4, 6)));
    assert!(!board.is_move_legal(to_board_index(5, 5), to_board_index(7, 5)));
    assert!(!board.is_move_legal(to_board_index(5, 5), to_board_index(7, 7)));
}

#[test]
fn pawn_advances_and_captures() {
    let mut board = empty_board(true);
    put(&mut board, 4, 10, PieceTypes::Pawn, true);
    let src = to_board_index(4, 10);
    // Straight advances up to three squares before the first move.
    assert!(board.is_move_legal(src, to_board_index(4, 9)));
    assert!(board.is_move_legal(src, to_board_index(4, 8)));
    assert!(board.is_move_legal(src, to_board_index(4, 7)));
    assert!(!board.is_move_legal(src, to_board_index(4, 6)));
    // White may not move toward higher rows.
    assert!(!board.is_move_legal(src, to_board_index(4, 11)));
    // A sideways step matches no capability.
    assert!(!board.is_move_legal(src, to_board_index(5, 10)));
    // A diagonal step onto an empty square is not an advance.
    assert!(!board.is_move_legal(src, to_board_index(3, 9)));

    // A capture must be a diagonal single step onto an enemy square.
    put(&mut board, 3, 9, PieceTypes::Pawn, false);
    assert!(board.is_move_legal(src, to_board_index(3, 9)));
    // Straight onto an occupied enemy square is no capture.
    put(&mut board, 4, 9, PieceTypes::Pawn, false);
    assert!(!board.is_move_legal(src, to_board_index(4, 9)));
    // A friendly piece can never be the destination.
    put(&mut board, 5, 9, PieceTypes::Pawn, true);
    assert!(!board.is_move_legal(src, to_board_index(5, 9)));
}

#[test]
fn pawn_advance_cap_shrinks_after_moving() {
    let mut board = empty_board(true);
    put(&mut board, 4, 10, PieceTypes::Pawn, true);
    let src = to_board_index(4, 10);
    if let Some(p) = board.grid[src].as_mut() {
        p.set_has_moved();
    }
    assert!(board.is_move_legal(src, to_board_index(4, 9)));
    assert!(board.is_move_legal(src, to_board_index(4, 8)));
    assert!(!board.is_move_legal(src, to_board_index(4, 7)));
}

#[test]
fn first_pawn_move_two_squares_needs_clear_path() {
    let mut board = BoardRecource::default();
    board.setup_board();
    let src = to_board_index(3, 14);
    let dst = to_board_index(3, 12);
    assert!(board.is_move_legal(src, dst));
    // Any piece on the intermediate square blocks the advance.
    put(&mut board, 3, 13, PieceTypes::Knight, false);
    assert!(!board.is_move_legal(src, dst));
    board.grid[to_board_index(3, 13)] = None;
    assert!(board.is_move_legal(src, dst));
}

#[test]
fn slider_blocked_by_intermediate_piece() {
    let mut board = empty_board(true);
    put(&mut board, 0, 0, PieceTypes::Rook, true);
    let src = to_board_index(0, 0);
    let dst = to_board_index(0, 5);
    assert!(board.is_move_legal(src, dst));
    // A blocker of either color on the path makes the move illegal.
    put(&mut board, 0, 3, PieceTypes::Pawn, false);
    assert!(!board.is_move_legal(src, dst));
    // Removing the blocker restores legality.
    board.grid[to_board_index(0, 3)] = None;
    assert!(board.is_move_legal(src, dst));
}

#[test]
fn diagonal_slider_blocked_on_diagonal() {
    let mut board = empty_board(true);
    put(&mut board, 2, 2, PieceTypes::Bishop, true);
    let src = to_board_index(2, 2);
    let dst = to_board_index(6, 6);
    assert!(board.is_move_legal(src, dst));
    put(&mut board, 4, 4, PieceTypes::Pawn, false);
    assert!(!board.is_move_legal(src, dst));
    // The jester steps over occupants.
    let mut jester_board = empty_board(true);
    put(&mut jester_board, 4, 10, PieceTypes::Jester, true);
    put(&mut jester_board, 4, 9, PieceTypes::Pawn, false);
    assert!(jester_board.is_move_legal(to_board_index(4, 10), to_board_index(4, 8)));
}

#[test]
fn amazon_short_reach() {
    let mut board = empty_board(false);
    put(&mut board, 7, 7, PieceTypes::Amazon, false);
    let src = to_board_index(7, 7);
    assert!(board.is_move_legal(src, to_board_index(9, 7)));
    assert!(board.is_move_legal(src, to_board_index(9, 9)));
    assert!(!board.is_move_legal(src, to_board_index(10, 7)));
    assert!(!board.is_move_legal(src, to_board_index(10, 10)));
}
