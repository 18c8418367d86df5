use chessboard::board::{Chessboard, DndData, PendingPromotion};
use chessboard::geometry::{BoardArea, PointerPos, Region, cell_origin};
use chessboard::oracle::{OracleError, PieceKind, Side, initial_fen};

const INITIAL_FEN: &str = "rnbqkbnr/pppppppp/8/8/8/8/PPPPPPPP/RNBQKBNR w KQkq - 0 1";
const AFTER_E4_FEN: &str = "rnbqkbnr/pppppppp/8/8/4P3/8/PPPP1PPP/RNBQKBNR b KQkq e3 0 1";
const SICILIAN_FEN: &str = "rnbqkbnr/pp1ppppp/8/2p5/4P3/5N2/PPPP1PPP/RNBQKB1R b KQkq - 1 2";
const PROMOTION_FEN: &str = "7k/4P3/8/8/8/8/8/4K3 w - - 0 1";

fn area() -> BoardArea {
    BoardArea { x: 0, y: 0, size: 900 }
}

/// Center of the rendered cell of (file, rank) on the 900-pixel board.
fn center(file: u8, rank: u8, reversed: bool) -> PointerPos {
    let (x, y) = cell_origin(file, rank, 900, reversed);
    PointerPos { x: (x + 50) as i64, y: (y + 50) as i64 }
}

#[test]
fn initial_fen_is_the_standard_one() {
    assert_eq!(initial_fen(), INITIAL_FEN);
}

#[test]
fn press_on_own_piece_starts_drag() {
    let mut board = Chessboard::new(String::from(INITIAL_FEN), false);
    let r = board.handle_button_pressed(Some(center(4, 1, false)), area());
    assert_eq!(r, Ok(None));
    let drag = board.dnd_data.expect("drag should start on e2");
    assert_eq!(drag.start_file, 4);
    assert_eq!(drag.start_rank, 1);
    assert_eq!(drag.piece_type, PieceKind::Pawn);
    assert_eq!(drag.piece_color, Side::White);
    assert_eq!(drag.location, center(4, 1, false));
    assert!(board.pending_promotion.is_none());
}

#[test]
fn press_on_empty_square_stays_idle() {
    let mut board = Chessboard::new(String::from(INITIAL_FEN), false);
    let r = board.handle_button_pressed(Some(center(4, 4, false)), area());
    assert_eq!(r, Ok(None));
    assert!(board.dnd_data.is_none());
    assert!(board.pending_promotion.is_none());
}

#[test]
fn press_on_opponent_piece_stays_idle() {
    let mut board = Chessboard::new(String::from(INITIAL_FEN), false);
    // e7 holds a black pawn; white is to move.
    let r = board.handle_button_pressed(Some(center(4, 6, false)), area());
    assert_eq!(r, Ok(None));
    assert!(board.dnd_data.is_none());
}

#[test]
fn press_outside_board_is_ignored() {
    let mut board = Chessboard::new(String::from(INITIAL_FEN), false);
    let r = board.handle_button_pressed(Some(PointerPos { x: 950, y: 10 }), area());
    assert_eq!(r, Ok(None));
    assert!(board.dnd_data.is_none());
    let r = board.handle_button_pressed(None, area());
    assert_eq!(r, Ok(None));
    assert!(board.dnd_data.is_none());
}

#[test]
fn press_in_margin_stays_idle() {
    let mut board = Chessboard::new(String::from(INITIAL_FEN), false);
    let r = board.handle_button_pressed(Some(PointerPos { x: 25, y: 25 }), area());
    assert_eq!(r, Ok(None));
    assert!(board.dnd_data.is_none());
}

#[test]
fn legal_drop_emits_exactly_one_notification() {
    let mut board = Chessboard::new(String::from(INITIAL_FEN), false);
    board.handle_button_pressed(Some(center(4, 1, false)), area()).unwrap();
    let r = board.handle_button_released(Some(center(4, 3, false)), area());
    assert_eq!(r, Ok(Some(String::from(AFTER_E4_FEN))));
    assert!(board.dnd_data.is_none());
    assert!(board.pending_promotion.is_none());
}

#[test]
fn illegal_drop_emits_nothing_and_returns_to_idle() {
    let mut board = Chessboard::new(String::from(INITIAL_FEN), false);
    board.handle_button_pressed(Some(center(4, 1, false)), area()).unwrap();
    // e2 to e8 is no legal pawn move.
    let r = board.handle_button_released(Some(center(4, 7, false)), area());
    assert_eq!(r, Ok(None));
    assert!(board.dnd_data.is_none());
    assert!(board.pending_promotion.is_none());
}

#[test]
fn sicilian_illegal_pawn_drag_is_discarded() {
    // Black to move; the pawn on c5 cannot capture an empty b4.
    let mut board = Chessboard::new(String::from(SICILIAN_FEN), false);
    board.handle_button_pressed(Some(center(2, 4, false)), area()).unwrap();
    let drag = board.dnd_data.expect("drag should start on the black c5 pawn");
    assert_eq!(drag.piece_color, Side::Black);
    let r = board.handle_button_released(Some(center(1, 3, false)), area());
    assert_eq!(r, Ok(None));
    assert!(board.dnd_data.is_none());
    assert!(board.pending_promotion.is_none());
}

#[test]
fn release_outside_board_discards_drag() {
    let mut board = Chessboard::new(String::from(INITIAL_FEN), false);
    board.handle_button_pressed(Some(center(4, 1, false)), area()).unwrap();
    let r = board.handle_button_released(Some(PointerPos { x: 2000, y: 2000 }), area());
    assert_eq!(r, Ok(None));
    assert!(board.dnd_data.is_none());
}

#[test]
fn release_in_margin_discards_drag() {
    let mut board = Chessboard::new(String::from(INITIAL_FEN), false);
    board.handle_button_pressed(Some(center(4, 1, false)), area()).unwrap();
    let r = board.handle_button_released(Some(PointerPos { x: 25, y: 25 }), area());
    assert_eq!(r, Ok(None));
    assert!(board.dnd_data.is_none());
}

#[test]
fn release_without_drag_changes_nothing() {
    let mut board = Chessboard::new(String::from(INITIAL_FEN), false);
    let r = board.handle_button_released(Some(center(4, 3, false)), area());
    assert_eq!(r, Ok(None));
    assert!(board.dnd_data.is_none());
    assert!(board.pending_promotion.is_none());
}

#[test]
fn mouse_move_updates_drag_location_only() {
    let mut board = Chessboard::new(String::from(INITIAL_FEN), false);
    board.handle_button_pressed(Some(center(4, 1, false)), area()).unwrap();
    let target = PointerPos { x: 520, y: 610 };
    board.handle_mouse_moved(Some(target), area());
    let drag = board.dnd_data.expect("drag should continue");
    assert_eq!(drag.location, target);
    assert_eq!(drag.start_file, 4);
    assert_eq!(drag.start_rank, 1);
}

#[test]
fn mouse_move_outside_board_keeps_old_location() {
    let mut board = Chessboard::new(String::from(INITIAL_FEN), false);
    let start = center(4, 1, false);
    board.handle_button_pressed(Some(start), area()).unwrap();
    board.handle_mouse_moved(Some(PointerPos { x: 2000, y: 10 }), area());
    assert_eq!(board.dnd_data.unwrap().location, start);
    board.handle_mouse_moved(Some(PointerPos { x: 25, y: 25 }), area());
    assert_eq!(board.dnd_data.unwrap().location, start);
    board.handle_mouse_moved(None, area());
    assert_eq!(board.dnd_data.unwrap().location, start);
}

#[test]
fn mouse_move_without_drag_changes_nothing() {
    let mut board = Chessboard::new(String::from(INITIAL_FEN), false);
    board.handle_mouse_moved(Some(center(4, 4, false)), area());
    assert!(board.dnd_data.is_none());
}

#[test]
fn pawn_to_last_rank_awaits_promotion() {
    let mut board = Chessboard::new(String::from(PROMOTION_FEN), false);
    board.handle_button_pressed(Some(center(4, 6, false)), area()).unwrap();
    assert!(board.dnd_data.is_some());
    let r = board.handle_button_released(Some(center(4, 7, false)), area());
    // No direct commit: the promotion choice is awaited instead.
    assert_eq!(r, Ok(None));
    assert!(board.dnd_data.is_none());
    let pending = board.pending_promotion.expect("promotion should be pending");
    assert_eq!(pending.start_file, 4);
    assert_eq!(pending.start_rank, 6);
    assert_eq!(pending.end_file, 4);
    assert_eq!(pending.end_rank, 7);
    assert_eq!(pending.piece_color, Side::White);
    // Selector buttons: one cell each at columns 1, 3, 5, 7, row 4.
    assert_eq!(pending.queen_button_bounds.x, 100);
    assert_eq!(pending.queen_button_bounds.y, 400);
    assert_eq!(pending.queen_button_bounds.size, 100);
    assert_eq!(pending.rook_button_bounds.x, 300);
    assert_eq!(pending.bishop_button_bounds.x, 500);
    assert_eq!(pending.knight_button_bounds.x, 700);
}

#[test]
fn queen_selection_commits_queen_promotion() {
    let mut board = Chessboard::new(String::from(PROMOTION_FEN), false);
    board.handle_button_pressed(Some(center(4, 6, false)), area()).unwrap();
    board.handle_button_released(Some(center(4, 7, false)), area()).unwrap();
    let r = board.handle_button_pressed(Some(PointerPos { x: 150, y: 450 }), area());
    assert_eq!(r, Ok(Some(String::from("4Q2k/8/8/8/8/8/8/4K3 b - - 0 1"))));
    assert!(board.dnd_data.is_none());
    assert!(board.pending_promotion.is_none());
    // A further press at the same point cannot emit again.
    let r = board.handle_button_pressed(Some(PointerPos { x: 150, y: 450 }), area());
    assert_eq!(r, Ok(None));
}

#[test]
fn knight_selection_commits_knight_promotion() {
    let mut board = Chessboard::new(String::from(PROMOTION_FEN), false);
    board.handle_button_pressed(Some(center(4, 6, false)), area()).unwrap();
    board.handle_button_released(Some(center(4, 7, false)), area()).unwrap();
    let r = board.handle_button_pressed(Some(PointerPos { x: 750, y: 450 }), area());
    assert_eq!(r, Ok(Some(String::from("4N2k/8/8/8/8/8/8/4K3 b - - 0 1"))));
    assert!(board.dnd_data.is_none());
    assert!(board.pending_promotion.is_none());
}

#[test]
fn press_outside_selectors_keeps_promotion_pending() {
    let mut board = Chessboard::new(String::from(PROMOTION_FEN), false);
    board.handle_button_pressed(Some(center(4, 6, false)), area()).unwrap();
    board.handle_button_released(Some(center(4, 7, false)), area()).unwrap();
    let r = board.handle_button_pressed(Some(PointerPos { x: 850, y: 850 }), area());
    assert_eq!(r, Ok(None));
    assert!(board.pending_promotion.is_some());
    assert!(board.dnd_data.is_none());
}

#[test]
fn release_and_move_are_ignored_while_promotion_pending() {
    let mut board = Chessboard::new(String::from(PROMOTION_FEN), false);
    board.handle_button_pressed(Some(center(4, 6, false)), area()).unwrap();
    board.handle_button_released(Some(center(4, 7, false)), area()).unwrap();
    let before = board.pending_promotion;
    let r = board.handle_button_released(Some(center(0, 0, false)), area());
    assert_eq!(r, Ok(None));
    board.handle_mouse_moved(Some(center(0, 0, false)), area());
    assert_eq!(board.pending_promotion, before);
    assert!(board.dnd_data.is_none());
}

#[test]
fn drag_and_promotion_never_both_present() {
    let mut board = Chessboard::new(String::from(PROMOTION_FEN), false);
    let events: [(u8, PointerPos); 7] = [
        (0, center(4, 6, false)),
        (2, PointerPos { x: 300, y: 300 }),
        (1, center(4, 7, false)),
        (0, PointerPos { x: 850, y: 850 }),
        (2, center(2, 2, false)),
        (0, PointerPos { x: 150, y: 450 }),
        (0, center(4, 4, false)),
    ];
    for (kind, p) in events {
        match kind {
            0 => {
                let _ = board.handle_button_pressed(Some(p), area());
            }
            1 => {
                let _ = board.handle_button_released(Some(p), area());
            }
            _ => board.handle_mouse_moved(Some(p), area()),
        }
        assert!(!(board.dnd_data.is_some() && board.pending_promotion.is_some()));
    }
}

#[test]
fn reversed_board_maps_presses_correctly() {
    let mut board = Chessboard::new(String::from(INITIAL_FEN), true);
    let r = board.handle_button_pressed(Some(center(4, 1, true)), area());
    assert_eq!(r, Ok(None));
    let drag = board.dnd_data.expect("drag should start on e2, board flipped");
    assert_eq!(drag.start_file, 4);
    assert_eq!(drag.start_rank, 1);
    let r = board.handle_button_released(Some(center(4, 3, true)), area());
    assert_eq!(r, Ok(Some(String::from(AFTER_E4_FEN))));
}

#[test]
fn invalid_fen_press_reports_invalid_position() {
    let mut board = Chessboard::new(String::from("not a position"), false);
    let r = board.handle_button_pressed(Some(center(4, 1, false)), area());
    assert_eq!(r, Err(OracleError::InvalidPosition));
    assert!(board.dnd_data.is_none());
}

#[test]
fn invalid_fen_release_reports_invalid_position() {
    let mut board = Chessboard::new(String::from("not a position"), false);
    board.dnd_data = Some(DndData {
        start_file: 4,
        start_rank: 1,
        location: center(4, 1, false),
        piece_type: PieceKind::Pawn,
        piece_color: Side::White,
    });
    let r = board.handle_button_released(Some(center(4, 3, false)), area());
    assert_eq!(r, Err(OracleError::InvalidPosition));
    // The state is left untouched on this unrecoverable error.
    assert!(board.dnd_data.is_some());
}

#[test]
fn rejected_selection_clears_promotion_without_notification() {
    // A pending promotion whose recorded move the oracle rejects (e7 to
    // e6 is no promotion): selecting a piece is a defensive no-op that
    // still clears the pending state and emits nothing.
    let mut board = Chessboard::new(String::from(PROMOTION_FEN), false);
    board.pending_promotion = Some(PendingPromotion {
        start_file: 4,
        start_rank: 6,
        end_file: 4,
        end_rank: 5,
        location: center(4, 6, false),
        piece_color: Side::White,
        queen_button_bounds: Region { x: 100, y: 400, size: 100 },
        rook_button_bounds: Region { x: 300, y: 400, size: 100 },
        bishop_button_bounds: Region { x: 500, y: 400, size: 100 },
        knight_button_bounds: Region { x: 700, y: 400, size: 100 },
    });
    let r = board.handle_button_pressed(Some(PointerPos { x: 150, y: 450 }), area());
    assert_eq!(r, Ok(None));
    assert!(board.pending_promotion.is_none());
    assert!(board.dnd_data.is_none());
}
