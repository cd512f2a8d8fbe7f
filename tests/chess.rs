use netchess::board::{BoardPosition, BoardSquare, Color, GameState, Piece};
use netchess::layout::{c_to_sq, Board};

fn layout(prefix: &str) -> String {
    format!("{}{}", prefix, ".".repeat(64 - prefix.len()))
}

fn board_with(prefix: &str, turn: Color) -> Board {
    let mut board = Board::new();
    board.setup_set_game(&layout(prefix), turn, false, false, false, false, None);
    board
}

fn bp(f: usize, r: usize) -> BoardPosition {
    BoardPosition(f, r)
}

#[test]
fn test_checkmate() -> Result<(), &'static str> {
    let mut board = Board::new();
    board.setup_set_game(&format!("R...k...R.......K{}", ".".repeat(64 - 17)), Color::Black, false, false, false, false, None);
    assert!(board.is_checkmated());
    board.setup_set_game(&format!("R...k...B.......K{}", ".".repeat(64 - 17)), Color::Black, false, false, false, false, None);
    assert!(!board.is_checkmated());
    board.setup_set_game(&format!("R...k...R.......K{}", ".".repeat(64 - 17)), Color::White, false, false, false, false, None);
    assert!(!board.is_checkmated());
    Ok(())
}

#[test]
fn checkmate_query_names_the_defender() {
    let mut board = board_with("R...k...R.......K", Color::White);
    assert!(board.game_state.is_checkmate(Color::Black));
    assert!(!board.game_state.is_checkmate(Color::White));
    // the side to move is left alone
    assert_eq!(board.game_state.turn, Color::White);
}

#[test]
fn check_without_mate_when_king_can_step_away() {
    // black king on e8 checked by a rook on a8, free to step to e7
    let mut board = board_with("R...k...........K", Color::Black);
    assert!(board.game_state.in_check(Color::Black));
    assert!(!board.is_checkmated());
    assert!(board.game_state.is_legal(bp(4, 0), bp(4, 1)));
    assert!(!board.game_state.is_legal(bp(4, 0), bp(3, 0)));
}

#[test]
fn layout_letters() {
    assert_eq!(c_to_sq(b'.'), Some(BoardSquare::Empty));
    assert_eq!(c_to_sq(b'p'), Some(BoardSquare::Occupied(Piece::Pawn(false), Color::Black)));
    assert_eq!(c_to_sq(b'K'), Some(BoardSquare::Occupied(Piece::King, Color::White)));
    assert_eq!(c_to_sq(b'N'), Some(BoardSquare::Occupied(Piece::Knight, Color::White)));
    assert_eq!(c_to_sq(b'x'), None);
    assert_eq!(c_to_sq(b'1'), None);
}

#[test]
fn new_game_layout_and_opening_moves() {
    let mut board = Board::new();
    board.setup_new_game();
    let g = &board.game_state;
    assert_eq!(g.turn, Color::White);
    assert_eq!(g.square(bp(4, 7)), BoardSquare::Occupied(Piece::King, Color::White));
    assert_eq!(g.square(bp(3, 0)), BoardSquare::Occupied(Piece::Queen, Color::Black));
    assert_eq!(g.square(bp(1, 7)), BoardSquare::Occupied(Piece::Knight, Color::White));
    assert_eq!(g.square(bp(0, 6)), BoardSquare::Occupied(Piece::Pawn(false), Color::White));
    assert_eq!(g.square(bp(4, 4)), BoardSquare::Empty);
    assert!(g.can_castle(Color::White, true) && g.can_castle(Color::Black, false));
    assert!(g.is_legal_start(bp(4, 6)));
    assert!(!g.is_legal_start(bp(4, 1)));
    assert!(!g.is_legal_start(bp(4, 4)));
    // pawn one or two squares, knight jump, nothing else
    assert!(g.is_legal(bp(4, 6), bp(4, 5)));
    assert!(g.is_legal(bp(4, 6), bp(4, 4)));
    assert!(!g.is_legal(bp(4, 6), bp(4, 3)));
    assert!(g.is_legal(bp(6, 7), bp(5, 5)));
    assert!(!g.is_legal(bp(2, 7), bp(4, 5)));
    assert!(!g.is_legal(bp(0, 7), bp(0, 5)));
    assert!(!g.is_legal(bp(4, 1), bp(4, 3)));
    assert!(g.has_legal_move());
}

#[test]
fn do_move_flips_turn_and_marks_pawn() {
    let mut board = Board::new();
    board.setup_new_game();
    let g = &mut board.game_state;
    g.do_move(bp(4, 6), bp(4, 5));
    assert_eq!(g.turn, Color::Black);
    assert_eq!(g.square(bp(4, 5)), BoardSquare::Occupied(Piece::Pawn(true), Color::White));
    assert_eq!(g.square(bp(4, 6)), BoardSquare::Empty);
    assert_eq!(g.en_passant_square(), None);
    // a moved pawn may no longer advance two squares
    g.do_move(bp(0, 1), bp(0, 2));
    assert!(!g.is_legal(bp(4, 5), bp(4, 3)));
    assert!(g.is_legal(bp(4, 5), bp(4, 4)));
}

/// A layout with the given pieces, (file, rank, letter), on an empty board.
fn position(pieces: &[(usize, usize, char)]) -> String {
    let mut cells = vec!['.'; 64];
    for &(f, r, c) in pieces {
        cells[r * 8 + f] = c;
    }
    cells.into_iter().collect()
}

fn game(pieces: &[(usize, usize, char)], turn: Color) -> GameState {
    let mut board = Board::new();
    board.setup_set_game(&position(pieces), turn, false, false, false, false, None);
    board.game_state
}

#[test]
fn double_advance_needs_both_squares_empty() {
    // white pawn on e2 (4, 6), black knight on e3 (4, 5)
    let g = game(&[(4, 0, 'k'), (4, 7, 'K'), (4, 6, 'P'), (4, 5, 'n')], Color::White);
    assert!(!g.is_legal(bp(4, 6), bp(4, 4)));
    assert!(!g.is_legal(bp(4, 6), bp(4, 5)));
    // knight on e4 instead: one step is fine, two are blocked at the target
    let g = game(&[(4, 0, 'k'), (4, 7, 'K'), (4, 6, 'P'), (4, 4, 'n')], Color::White);
    assert!(g.is_legal(bp(4, 6), bp(4, 5)));
    assert!(!g.is_legal(bp(4, 6), bp(4, 4)));
}

#[test]
fn en_passant_only_on_the_next_move() {
    // black pawn on d4 (3, 4), white pawn on e2 (4, 6)
    let mut g = game(&[(4, 0, 'k'), (4, 7, 'K'), (3, 4, 'p'), (4, 6, 'P')], Color::White);
    assert!(g.is_legal(bp(4, 6), bp(4, 4)));
    g.do_move(bp(4, 6), bp(4, 4));
    assert_eq!(g.en_passant_square(), Some(bp(4, 4)));
    // right away: black takes en passant onto e3, removing the pawn on e4
    let mut taken = g;
    assert!(taken.is_legal(bp(3, 4), bp(4, 5)));
    taken.do_move(bp(3, 4), bp(4, 5));
    assert_eq!(taken.square(bp(4, 4)), BoardSquare::Empty);
    assert_eq!(taken.square(bp(4, 5)), BoardSquare::Occupied(Piece::Pawn(true), Color::Black));
    // after another pair of moves the same capture is gone
    g.do_move(bp(4, 0), bp(3, 0));
    g.do_move(bp(4, 7), bp(3, 7));
    assert_eq!(g.en_passant_square(), None);
    assert!(!g.is_legal(bp(3, 4), bp(4, 5)));
    // a single-step advance never opens en passant
    let mut g = game(&[(4, 0, 'k'), (4, 7, 'K'), (3, 5, 'p'), (4, 6, 'P')], Color::White);
    g.do_move(bp(4, 6), bp(4, 5));
    assert_eq!(g.en_passant_square(), None);
}

fn castling_board(prefix_rank0: &str, rank7: &str, turn: Color) -> GameState {
    let mut board = Board::new();
    let text = format!("{}{}{}", prefix_rank0, ".".repeat(48), rank7);
    board.setup_set_game(&text, turn, true, true, true, true, None);
    board.game_state
}

#[test]
fn castling_allowed_on_clear_safe_path() {
    let mut g = castling_board("....k...", "R...K..R", Color::White);
    assert!(g.is_legal(bp(4, 7), bp(6, 7)));
    assert!(g.is_legal(bp(4, 7), bp(2, 7)));
    g.do_move(bp(4, 7), bp(6, 7));
    assert_eq!(g.square(bp(5, 7)), BoardSquare::Occupied(Piece::Rook, Color::White));
    assert_eq!(g.square(bp(7, 7)), BoardSquare::Empty);
    assert_eq!(g.square(bp(6, 7)), BoardSquare::Occupied(Piece::King, Color::White));
    assert!(!g.can_castle(Color::White, true));
    assert!(!g.can_castle(Color::White, false));
    assert!(g.can_castle(Color::Black, true));
}

#[test]
fn castling_denied_after_king_or_rook_moved() {
    let mut g = castling_board("....k...", "R...K..R", Color::White);
    g.do_move(bp(7, 7), bp(7, 6));
    g.do_move(bp(4, 0), bp(3, 0));
    g.do_move(bp(7, 6), bp(7, 7));
    g.do_move(bp(3, 0), bp(4, 0));
    assert!(!g.can_castle(Color::White, false));
    assert!(g.can_castle(Color::White, true));
    assert!(!g.is_legal(bp(4, 7), bp(6, 7)));
    assert!(g.is_legal(bp(4, 7), bp(2, 7)));
    g.do_move(bp(4, 7), bp(4, 6));
    g.do_move(bp(4, 0), bp(3, 0));
    g.do_move(bp(4, 6), bp(4, 7));
    g.do_move(bp(3, 0), bp(4, 0));
    assert!(!g.is_legal(bp(4, 7), bp(2, 7)));
}

#[test]
fn castling_denied_through_pieces_or_attack() {
    // a knight between king and rook
    let g = castling_board("....k...", "R...K.NR", Color::White);
    assert!(!g.is_legal(bp(4, 7), bp(6, 7)));
    // the king's start is attacked by a rook on e8
    let g = castling_board("....r..k", "R...K..R", Color::White);
    assert!(!g.is_legal(bp(4, 7), bp(6, 7)));
    // the transit square f1 is attacked by a rook on f8
    let g = castling_board(".....r.k", "R...K..R", Color::White);
    assert!(!g.is_legal(bp(4, 7), bp(6, 7)));
    assert!(g.is_legal(bp(4, 7), bp(2, 7)));
    // the landing square g1 is attacked by a rook on g8
    let g = castling_board("......rk", "R...K..R", Color::White);
    assert!(!g.is_legal(bp(4, 7), bp(6, 7)));
    // no rook in the corner
    let g = castling_board("....k...", "R...K...", Color::White);
    assert!(!g.is_legal(bp(4, 7), bp(6, 7)));
}

#[test]
fn pinned_piece_may_not_leave_the_line() {
    // white king e1 (4, 7), white bishop e2 (4, 6), black rook e8 (4, 0)
    let g = game(&[(7, 0, 'k'), (4, 0, 'r'), (4, 6, 'B'), (4, 7, 'K')], Color::White);
    assert!(!g.is_legal(bp(4, 6), bp(3, 5)));
    assert!(!g.is_legal(bp(4, 6), bp(5, 5)));
    // the king itself may step aside, but not along the rook's file
    assert!(g.is_legal(bp(4, 7), bp(3, 7)));
    assert!(g.is_legal(bp(4, 7), bp(3, 6)));
    // without the rook the bishop is free
    let g = game(&[(7, 0, 'k'), (4, 6, 'B'), (4, 7, 'K')], Color::White);
    assert!(g.is_legal(bp(4, 6), bp(3, 5)));
}

#[test]
fn attacks_and_blocking() {
    // black rook a8 (0, 0), white bishop a1 (0, 7), white king e1, black king h8
    let g = game(&[(0, 0, 'r'), (7, 0, 'k'), (0, 7, 'B'), (4, 7, 'K')], Color::White);
    assert!(g.is_square_attacked(bp(0, 5), Color::Black));
    assert!(!g.is_square_attacked(bp(1, 5), Color::Black));
    // the bishop's diagonal runs to b2 and on to g7
    assert!(g.is_square_attacked(bp(1, 6), Color::White));
    assert!(g.is_square_attacked(bp(6, 1), Color::White));
    // nothing black reaches b1
    assert!(!g.is_square_attacked(bp(1, 7), Color::Black));
    // a knight's jump is not blocked
    let g = game(&[(1, 7, 'N'), (1, 6, 'P'), (2, 6, 'P'), (4, 7, 'K'), (7, 0, 'k')], Color::White);
    assert!(g.is_square_attacked(bp(2, 5), Color::White));
    assert!(g.is_square_attacked(bp(0, 5), Color::White));
}

#[test]
fn pawn_attacks_diagonals_even_when_empty() {
    // black pawn on d7 (3, 1)
    let g = game(&[(4, 0, 'k'), (3, 1, 'p'), (4, 7, 'K')], Color::White);
    assert!(g.is_square_attacked(bp(2, 2), Color::Black));
    assert!(g.is_square_attacked(bp(4, 2), Color::Black));
    assert!(!g.is_square_attacked(bp(3, 2), Color::Black));
    assert!(!g.is_square_attacked(bp(2, 0), Color::Black));
}
