use chessboard::chessboard::painter::{CellPaint, MovedPiece, Painter, PromotionButtons, Shade};
use chessboard::geometry::square_center;
use chessboard::history::{Button, History};
use chessboard::mainwindow::{MainWindow, Notice, Order};
use chessboard::{
    ChessBoard, Color, DrawReason, Msg, Outcome, PointerEvent, Position, Square, WinReason,
};

fn center(board: &ChessBoard, file: u8, rank: u8) -> PointerEvent {
    let (x, y) =
        square_center(Square { file, rank }, board.common_size(), board.reversed()).unwrap();
    PointerEvent { x, y }
}

fn labels(history: &History) -> Vec<String> {
    history
        .buttons()
        .iter()
        .map(|button| match button {
            Button::MoveNumber(number) => format!("#{}", number),
            Button::Move(text) => text.clone(),
        })
        .collect()
}

#[test]
fn a_new_history_shows_the_first_move_number() {
    let history = History::new();
    assert_eq!(labels(&history), vec!["#1"]);
    assert_eq!(history.move_number(), 1);
    let model = History::model();
    assert!(!model.game_in_progress);
    assert_eq!(model.move_number, 1);
}

#[test]
fn history_numbers_the_full_moves() {
    let mut history = History::new();
    history.update(chessboard::history::Msg::AddMoveSan(String::from("e4"), true));
    assert_eq!(labels(&history), vec!["#1", "e4"]);
    assert_eq!(history.move_number(), 1);
    history.update(chessboard::history::Msg::AddMoveSan(String::from("e5"), false));
    assert_eq!(labels(&history), vec!["#1", "e4", "e5", "#2"]);
    assert_eq!(history.move_number(), 2);
    history.update(chessboard::history::Msg::AddMoveSan(String::from("Nf3"), true));
    history.update(chessboard::history::Msg::AddMoveSan(String::from("Nc6"), false));
    assert_eq!(
        labels(&history),
        vec!["#1", "e4", "e5", "#2", "\u{2658}f3", "\u{265e}c6", "#3"]
    );
    assert_eq!(history.move_number(), 3);
}

#[test]
fn history_stops_counting_at_the_largest_number() {
    let mut history = History::new();
    for _ in 0..65534 {
        history.update(chessboard::history::Msg::AddMoveSan(String::from("Kd2"), false));
    }
    assert_eq!(history.move_number(), 65535);
    history.update(chessboard::history::Msg::AddMoveSan(String::from("Kd2"), false));
    assert_eq!(history.move_number(), 65535);
    let shown = labels(&history);
    assert_eq!(shown.len(), 1 + 2 * 65535);
    assert_eq!(shown[shown.len() - 1], "#65535");
    assert_eq!(shown[shown.len() - 2], "\u{265a}d2");
    assert_eq!(shown[shown.len() - 3], "#65535");
    assert_eq!(shown[shown.len() - 5], "#65534");
}

#[test]
fn window_starts_without_a_game() {
    let window = MainWindow::new();
    assert!(!window.game_in_progress());
    assert!(!MainWindow::model().game_in_progress);
}

#[test]
fn window_asks_before_leaving_a_game() {
    let mut window = MainWindow::new();
    assert!(matches!(window.update(chessboard::mainwindow::Msg::StartGame), Order::StartBoard));
    assert!(matches!(window.update(chessboard::mainwindow::Msg::StopGame), Order::Nothing));
    assert!(matches!(window.update(chessboard::mainwindow::Msg::GameStarted), Order::Nothing));
    assert!(window.game_in_progress());
    assert!(matches!(
        window.update(chessboard::mainwindow::Msg::StartGame),
        Order::ConfirmStart(Notice::QuitCurrentGameAndStartNew)
    ));
    assert!(matches!(
        window.update(chessboard::mainwindow::Msg::StopGame),
        Order::ConfirmStop(Notice::StopCurrentGame)
    ));
    assert!(window.game_in_progress());
    assert!(matches!(
        window.update(chessboard::mainwindow::Msg::GameStoppedByUser),
        Order::Inform(Notice::GameInterrupted)
    ));
    assert!(!window.game_in_progress());
}

#[test]
fn window_tells_how_the_game_ended() {
    let mut window = MainWindow::new();
    window.update(chessboard::mainwindow::Msg::GameStarted);
    let won = Outcome::Win { side: Color::Black, reason: WinReason::Checkmate };
    assert!(matches!(
        window.update(chessboard::mainwindow::Msg::GameOver(won)),
        Order::Inform(Notice::WonByCheckmate(Color::Black))
    ));
    assert!(!window.game_in_progress());
    assert!(matches!(window.update(chessboard::mainwindow::Msg::Quit), Order::Quit));
}

#[test]
fn window_passes_moves_on_to_the_history() {
    let mut window = MainWindow::new();
    match window.update(chessboard::mainwindow::Msg::MovePlayed(String::from("Nf3"), true)) {
        Order::AddToHistory(san, white_player) => {
            assert_eq!(san, "Nf3");
            assert!(white_player);
        },
        other => panic!("{:?}", other),
    }
    assert!(!window.game_in_progress());
}

#[test]
fn notices_of_outcomes() {
    let cases = [
        (Outcome::Draw(DrawReason::InsufficientMaterial), "Draw by missing material."),
        (Outcome::Draw(DrawReason::Stalemate), "Draw by stalemate."),
        (Outcome::Draw(DrawReason::Moves50), "Draw by the 50 moves rule."),
        (Outcome::Draw(DrawReason::Moves75), "Draw by the 75 moves rule."),
        (Outcome::Draw(DrawReason::Repeat3), "Draw by three fold repetition."),
        (Outcome::Draw(DrawReason::Repeat5), "Draw by five fold repetition."),
        (Outcome::Draw(DrawReason::Other), "Draw by unknown reason."),
        (
            Outcome::Win { side: Color::White, reason: WinReason::Checkmate },
            "White won by checkmate.",
        ),
        (
            Outcome::Win { side: Color::Black, reason: WinReason::Checkmate },
            "Black won by checkmate.",
        ),
        (
            Outcome::Win { side: Color::White, reason: WinReason::Other },
            "White won by unknown reason.",
        ),
        (
            Outcome::Win { side: Color::Black, reason: WinReason::Other },
            "Black won by unknown reason.",
        ),
    ];
    for (outcome, words) in cases {
        assert_eq!(Notice::of_outcome(outcome).text(), words);
    }
    assert_eq!(Notice::GameInterrupted.text(), "Game interrupted.");
    assert_eq!(Notice::StopCurrentGame.text(), "Do you want to stop current game ?");
    assert_eq!(
        Notice::QuitCurrentGameAndStartNew.text(),
        "Do you want to quit current game and start a new one ?"
    );
}

#[test]
fn scene_of_a_new_board() {
    let board = ChessBoard::new();
    let scene = Painter::draw(&board);
    assert_eq!(scene.size, 400);
    assert_eq!(scene.cells.len(), 64);
    assert!(scene.white_turn);
    assert_eq!(scene.moved_piece, None);
    assert_eq!(scene.promotion_buttons, None);
    assert_eq!(scene.file_labels, vec!['A', 'B', 'C', 'D', 'E', 'F', 'G', 'H']);
    assert_eq!(scene.rank_labels, vec!['8', '7', '6', '5', '4', '3', '2', '1']);
    let glyphs: String = scene.cells.iter().map(|cell| cell.piece.unwrap_or('.')).collect();
    assert_eq!(
        glyphs,
        "rnbqkbnrpppppppp................................PPPPPPPPRNBQKBNR"
    );
    for row in 0..8 {
        for col in 0..8 {
            let expected = if (row + col) % 2 == 0 { Shade::Light } else { Shade::Dark };
            assert_eq!(scene.cells[row * 8 + col].shade, expected);
        }
    }
}

#[test]
fn scene_of_a_turned_board() {
    let mut board = ChessBoard::new();
    board.update(Msg::ToggleOrientation);
    let scene = Painter::draw(&board);
    assert_eq!(scene.file_labels, vec!['H', 'G', 'F', 'E', 'D', 'C', 'B', 'A']);
    assert_eq!(scene.rank_labels, vec!['1', '2', '3', '4', '5', '6', '7', '8']);
    let glyphs: String = scene.cells.iter().map(|cell| cell.piece.unwrap_or('.')).collect();
    assert_eq!(
        glyphs,
        "RNBKQBNRPPPPPPPP................................pppppppprnbkqbnr"
    );
    assert_eq!(scene.cells[0].shade, Shade::Light);
    assert_eq!(scene.cells[1].shade, Shade::Dark);
}

#[test]
fn scene_of_a_drag() {
    let mut board = ChessBoard::new();
    board.update(Msg::ButtonDown(center(&board, 4, 1)));
    board.update(Msg::MouseMoved(PointerEvent { x: 230, y: 215 }));
    let scene = Painter::draw(&board);
    // e2 is in row 6, column 4, and e4 in row 4.
    assert_eq!(scene.cells[6 * 8 + 4], CellPaint { shade: Shade::Origin, piece: None });
    assert_eq!(scene.cells[4 * 8 + 4], CellPaint { shade: Shade::Target, piece: None });
    assert_eq!(scene.cells[6 * 8 + 3], CellPaint { shade: Shade::Dark, piece: Some('P') });
    assert_eq!(scene.moved_piece, Some(MovedPiece { glyph: 'P', x: 208, y: 193 }));
    assert_eq!(scene.promotion_buttons, None);
    assert!(scene.white_turn);
}

#[test]
fn scene_where_the_drag_began() {
    let mut board = ChessBoard::new();
    board.update(Msg::ButtonDown(center(&board, 6, 0)));
    let scene = Painter::draw(&board);
    assert_eq!(scene.cells[7 * 8 + 6], CellPaint { shade: Shade::Origin, piece: None });
    assert_eq!(scene.moved_piece.unwrap().glyph, 'N');
}

#[test]
fn scene_after_a_move() {
    let mut board = ChessBoard::new();
    board.update(Msg::ButtonDown(center(&board, 4, 1)));
    board.update(Msg::ButtonUp(center(&board, 4, 3)));
    let scene = Painter::draw(&board);
    assert!(!scene.white_turn);
    assert_eq!(scene.cells[4 * 8 + 4], CellPaint { shade: Shade::Light, piece: Some('P') });
    assert_eq!(scene.cells[6 * 8 + 4], CellPaint { shade: Shade::Light, piece: None });
    assert_eq!(scene.moved_piece, None);
}

#[test]
fn scene_of_a_promotion_choice() {
    let position = Position::from_fen("8/4P3/8/8/8/8/k6K/8 w - - 0 1").unwrap();
    let mut board = ChessBoard::with_position(position);
    board.update(Msg::ButtonDown(center(&board, 4, 6)));
    board.update(Msg::ButtonUp(center(&board, 4, 7)));
    let scene = Painter::draw(&board);
    assert_eq!(
        scene.promotion_buttons,
        Some(PromotionButtons { top: 5, queen: 'Q', rook: 'R', bishop: 'B', knight: 'N' })
    );
    assert_eq!(scene.cells[4], CellPaint { shade: Shade::Target, piece: None });
    assert_eq!(scene.cells[8 + 4], CellPaint { shade: Shade::Origin, piece: None });
    assert_eq!(scene.moved_piece.unwrap().glyph, 'P');

    let position = Position::from_fen("8/8/8/8/8/8/k3p2K/8 b - - 0 1").unwrap();
    let mut board = ChessBoard::with_position(position);
    board.update(Msg::ButtonDown(center(&board, 4, 1)));
    board.update(Msg::ButtonUp(center(&board, 4, 0)));
    let scene = Painter::draw(&board);
    assert_eq!(
        scene.promotion_buttons,
        Some(PromotionButtons { top: 80, queen: 'q', rook: 'r', bishop: 'b', knight: 'n' })
    );
    assert!(!scene.white_turn);
}

#[test]
fn button_extents_of_the_painter() {
    assert_eq!(Painter::BUTTON_Y1_RATIO, 5);
    assert_eq!(Painter::BUTTON_Y2_RATIO, 80);
    assert_eq!(Painter::BUTTON_SIZE_RATIO, 15);
    assert_eq!(Painter::QUEEN_BUTTON_X_RATIO, 5);
    assert_eq!(Painter::ROOK_BUTTON_X_RATIO, 30);
    assert_eq!(Painter::BISHOP_BUTTON_X_RATIO, 55);
    assert_eq!(Painter::KNIGHT_BUTTON_X_RATIO, 80);
}

#[test]
fn scene_on_a_board_that_was_resized() {
    let mut board = ChessBoard::new();
    board.resize(1000, 1200);
    board.update(Msg::ButtonDown(center(&board, 0, 1)));
    board.update(Msg::MouseMoved(PointerEvent { x: -10, y: 2000 }));
    let scene = Painter::draw(&board);
    assert_eq!(scene.size, 1000);
    assert_eq!(scene.moved_piece, Some(MovedPiece { glyph: 'P', x: -65, y: 1945 }));
    assert_eq!(scene.cells[6 * 8].shade, Shade::Origin);
}
