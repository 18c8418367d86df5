use chessboard::application::{App, Message, MessageProducer};
use chessboard::board::Chessboard;
use chessboard::geometry::{BoardArea, PointerPos, cell_origin};

const INITIAL_FEN: &str = "rnbqkbnr/pppppppp/8/8/8/8/PPPPPPPP/RNBQKBNR w KQkq - 0 1";
const AFTER_E4_FEN: &str = "rnbqkbnr/pppppppp/8/8/4P3/8/PPPP1PPP/RNBQKBNR b KQkq e3 0 1";

#[test]
fn app_default_shows_initial_position() {
    let app = App::default();
    assert!(!app.board_reversed);
    assert_eq!(app.board_fen, INITIAL_FEN);
}

#[test]
fn app_update_toggles_orientation() {
    let mut app = App::default();
    app.update(Message::ToggleBoardOrientation);
    assert!(app.board_reversed);
    assert_eq!(app.board_fen, INITIAL_FEN);
    app.update(Message::ToggleBoardOrientation);
    assert!(!app.board_reversed);
}

#[test]
fn app_update_adopts_new_position() {
    let mut app = App::default();
    app.update(Message::UpdatePosition(String::from(AFTER_E4_FEN)));
    assert_eq!(app.board_fen, AFTER_E4_FEN);
    assert!(!app.board_reversed);
}

#[test]
fn build_update_position_message_wraps_fen() {
    let m = App::build_update_position_message(String::from(AFTER_E4_FEN));
    assert_eq!(m, Message::UpdatePosition(String::from(AFTER_E4_FEN)));
}

#[test]
fn producer_routes_committed_move_to_app() {
    // The host wires the board's notification into its message type.
    let producer = MessageProducer { build_update_position: App::build_update_position_message };
    let mut app = App::default();
    let mut board = Chessboard::new(app.board_fen.clone(), app.board_reversed);
    let area = BoardArea { x: 0, y: 0, size: 900 };
    let press = {
        let (x, y) = cell_origin(4, 1, 900, false);
        PointerPos { x: (x + 50) as i64, y: (y + 50) as i64 }
    };
    let release = {
        let (x, y) = cell_origin(4, 3, 900, false);
        PointerPos { x: (x + 50) as i64, y: (y + 50) as i64 }
    };
    board.handle_button_pressed(Some(press), area).unwrap();
    let emitted = board.handle_button_released(Some(release), area).unwrap();
    let message = (producer.build_update_position)(emitted.expect("move should commit"));
    app.update(message);
    assert_eq!(app.board_fen, AFTER_E4_FEN);
}
