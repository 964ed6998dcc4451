//! Applying moves: turn flipping, rejection without side effects, captures,
//! promotion, check safety, enumeration, and the move suggestion stub.
use pro_chess::board::{to_board_index, BoardRecource, PieceResult, BOARD_LEN};
use pro_chess::piece::{Piece, PieceTypes, Rules};

fn empty_board(turn: bool) -> BoardRecource {
    let mut board = BoardRecource::default();
    board.grid = vec![None; BOARD_LEN];
    board.turn = turn;
    board
}

fn put(board: &mut BoardRecource, c: usize, r: usize, t: PieceTypes, color: bool) {
    board.grid[to_board_index(c, r)] = Some(Piece::new(t, color, Rules::get_rules(t)));
}

fn put_with_id(board: &mut BoardRecource, c: usize, r: usize, t: PieceTypes, color: bool, id: u64) {
    let mut piece = Piece::new(t, color, Rules::get_rules(t));
    piece.id = Some(id);
    board.grid[to_board_index(c, r)] = Some(piece);
}

fn boards_equal(a: &BoardRecource, b: &BoardRecource) -> bool {
    a.turn == b.turn && a.grid == b.grid
}

#[test]
fn applied_move_flips_turn() {
    let mut board = BoardRecource::default();
    board.setup_board();
    assert_eq!(board.turn, true);
    let src = to_board_index(3, 14);
    let dst = to_board_index(3, 12);
    board.move_piece(src, dst);
    assert_eq!(board.turn, false);
    assert!(board.grid[src].is_none());
    let moved = board.grid[dst].unwrap();
    assert_eq!(moved.get_type(), PieceTypes::Pawn);
    assert!(moved.has_moved());
}

#[test]
fn rejected_move_changes_nothing() {
    let mut board = BoardRecource::default();
    board.setup_board();
    let before = board.clone();
    // An illegal move: a pawn sideways.
    let events = board.move_piece(to_board_index(3, 14), to_board_index(4, 14));
    assert!(events.is_empty());
    assert!(boards_equal(&board, &before));
    // A move out of range.
    let events = board.move_piece(5, BOARD_LEN + 2);
    assert!(events.is_empty());
    assert!(boards_equal(&board, &before));
}

#[test]
fn capture_removes_the_captured_piece() {
    let mut board = empty_board(true);
    put_with_id(&mut board, 0, 10, PieceTypes::Rook, true, 1);
    put_with_id(&mut board, 0, 5, PieceTypes::Pawn, false, 2);
    put_with_id(&mut board, 15, 15, PieceTypes::King, true, 3);
    put_with_id(&mut board, 15, 0, PieceTypes::King, false, 4);
    let src = to_board_index(0, 10);
    let dst = to_board_index(0, 5);
    let events = board.move_piece(src, dst);
    assert_eq!(events, vec![(1, PieceResult::Moved(dst)), (2, PieceResult::Captured())]);
    // The source square is empty; the destination holds exactly the mover.
    assert!(board.grid[src].is_none());
    let mover = board.grid[dst].unwrap();
    assert_eq!(mover.get_id(), Some(1));
    assert_eq!(mover.get_type(), PieceTypes::Rook);
    assert!(mover.has_moved());
    // The captured identifier is nowhere on the board any more.
    for cell in board.grid.iter() {
        if let Some(p) = cell {
            assert_ne!(p.get_id(), Some(2));
        }
    }
    // A later move never mentions the captured identifier.
    let reply = board.move_piece(to_board_index(15, 0), to_board_index(15, 1));
    assert!(!reply.is_empty());
    for (id, _) in reply.iter() {
        assert_ne!(*id, 2);
    }
}

#[test]
fn promotion_on_extreme_row() {
    let mut board = empty_board(true);
    put_with_id(&mut board, 6, 2, PieceTypes::Pawn, true, 7);
    put_with_id(&mut board, 0, 15, PieceTypes::King, true, 8);
    put_with_id(&mut board, 15, 8, PieceTypes::King, false, 9);
    let src = to_board_index(6, 2);
    let dst = to_board_index(6, 0);
    let events = board.move_piece(src, dst);
    assert_eq!(events, vec![(7, PieceResult::Promoted(dst, PieceTypes::Queen, true))]);
    let promoted = board.grid[dst].unwrap();
    assert_eq!(promoted.get_type(), PieceTypes::Queen);
    assert_eq!(promoted.get_color(), true);
    assert_eq!(promoted.get_id(), Some(7));
    // The promoted piece carries the queen's rule descriptor.
    assert_eq!(promoted.get_rules(), Rules::get_rules(PieceTypes::Queen));
}

#[test]
fn promoting_capture_reports_both_pieces() {
    let mut board = empty_board(false);
    // A black jester, a pawn-capability piece, captures onto the last row.
    put_with_id(&mut board, 6, 14, PieceTypes::Jester, false, 11);
    put_with_id(&mut board, 5, 15, PieceTypes::Rook, true, 12);
    put_with_id(&mut board, 0, 0, PieceTypes::King, false, 13);
    put_with_id(&mut board, 15, 7, PieceTypes::King, true, 14);
    let src = to_board_index(6, 14);
    let dst = to_board_index(5, 15);
    let events = board.move_piece(src, dst);
    assert_eq!(
        events,
        vec![
            (11, PieceResult::Promoted(dst, PieceTypes::Queen, false)),
            (12, PieceResult::Captured()),
        ]
    );
    assert_eq!(board.grid[dst].unwrap().get_type(), PieceTypes::Queen);
}

#[test]
fn moves_without_identifiers_apply_silently() {
    let mut board = BoardRecource::default();
    board.setup_board();
    // Setup pieces carry no external identifiers, so no events are emitted,
    // but the move is applied all the same.
    let src = to_board_index(3, 14);
    let dst = to_board_index(3, 12);
    let events = board.move_piece(src, dst);
    assert!(events.is_empty());
    assert_eq!(board.turn, false);
    assert!(board.grid[src].is_none());
    assert!(board.grid[dst].is_some());
}

#[test]
fn exposing_own_king_is_rejected() {
    let mut board = empty_board(true);
    put(&mut board, 3, 15, PieceTypes::King, true);
    put(&mut board, 3, 10, PieceTypes::Rook, true);
    put(&mut board, 3, 0, PieceTypes::Rook, false);
    let src = to_board_index(3, 10);
    let before = board.clone();
    // Stepping off the column uncovers the king to the black rook.
    assert!(board.will_be_in_check(src, to_board_index(5, 10)));
    let events = board.move_piece(src, to_board_index(5, 10));
    assert!(events.is_empty());
    assert!(boards_equal(&board, &before));
    // Sliding along the column keeps the king covered.
    assert!(!board.will_be_in_check(src, to_board_index(3, 5)));
    board.move_piece(src, to_board_index(3, 5));
    assert_eq!(board.turn, false);
    assert!(board.grid[to_board_index(3, 5)].is_some());
}

#[test]
fn enumerator_matches_legality_and_safety() {
    let mut board = BoardRecource::default();
    board.setup_board();
    for src in [to_board_index(3, 14), to_board_index(2, 15), to_board_index(0, 0), 77] {
        let moves = board.get_possible_moves(src);
        let mut expected = Vec::new();
        for dst in 0..BOARD_LEN {
            if board.is_move_legal(src, dst) && !board.will_be_in_check(src, dst) {
                expected.push(dst);
            }
        }
        assert_eq!(moves, expected);
    }
}

#[test]
fn rook_on_empty_board_reaches_row_and_column() {
    let mut board = empty_board(true);
    put(&mut board, 0, 0, PieceTypes::Rook, true);
    // The mover's king stands away from the rook's lines, so no destination
    // is filtered out by check safety.
    put(&mut board, 5, 5, PieceTypes::King, true);
    let moves = board.get_possible_moves(to_board_index(0, 0));
    let mut expected = Vec::new();
    for c in 1..16 {
        expected.push(to_board_index(c, 0));
    }
    for r in 1..16 {
        expected.push(to_board_index(0, r));
    }
    expected.sort();
    assert_eq!(moves, expected);
}

#[test]
fn board_without_a_king_allows_nothing() {
    let mut board = empty_board(true);
    put(&mut board, 0, 0, PieceTypes::Rook, true);
    // Without a king of the mover's color every move counts as exposing,
    // the fail-safe against an invalid board.
    assert!(board.will_be_in_check(to_board_index(0, 0), to_board_index(0, 5)));
    assert!(board.get_possible_moves(to_board_index(0, 0)).is_empty());
    let events = board.move_piece(to_board_index(0, 0), to_board_index(0, 5));
    assert!(events.is_empty());
}

#[test]
fn best_next_move_is_first_enumerable() {
    let mut board = BoardRecource::default();
    board.setup_board();
    // The first occupied square with a legal destination is the leftmost
    // white pawn; its lowest destination is three rows ahead.
    assert_eq!(
        pro_chess::board::get_best_next_move(&board),
        Some((to_board_index(0, 14), to_board_index(0, 11)))
    );
    // A board with no moves at all suggests nothing.
    let empty = empty_board(true);
    assert_eq!(pro_chess::board::get_best_next_move(&empty), None);
}
