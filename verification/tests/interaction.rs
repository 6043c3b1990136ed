use chessboard::geometry::square_center;
use chessboard::{
    ChessBoard, Color, DragAndDropData, DrawReason, DrawingArea, IllegalMove, MouseHandler, Msg,
    Outcome, Piece, PointerEvent, Position, Square, WinReason,
};

fn sq(name: &str) -> Square {
    let bytes = name.as_bytes();
    Square { file: bytes[0] - b'a', rank: bytes[1] - b'1' }
}

fn at(board: &ChessBoard, name: &str) -> PointerEvent {
    let (x, y) = square_center(sq(name), board.common_size(), board.reversed()).unwrap();
    PointerEvent { x, y }
}

fn drag(board: &mut ChessBoard, from: &str, to: &str) -> chessboard::Reaction {
    let down = at(board, from);
    board.update(Msg::ButtonDown(down));
    let over = at(board, to);
    board.update(Msg::MouseMoved(over));
    board.update(Msg::ButtonUp(over))
}

fn notations(board: &ChessBoard) -> Vec<(String, bool)> {
    board.history().iter().map(|m| (m.notation.clone(), m.white_player)).collect()
}

#[test]
fn a_new_board() {
    let board = ChessBoard::new();
    assert_eq!(board.common_size(), 400);
    assert!(!board.reversed());
    assert!(board.game_in_progress());
    assert_eq!(board.dnd_data(), None);
    assert!(board.history().is_empty());
    assert_eq!(board.position().side_to_move(), Some(Color::White));
    assert_eq!(board.position().occupant_at(sq("e2")), Some((Piece::Pawn, Color::White)));
}

#[test]
fn common_size_is_the_lesser_extent() {
    let mut board = ChessBoard::new();
    board.resize(640, 480);
    assert_eq!(board.common_size(), 480);
    board.resize(300, 900);
    assert_eq!(board.common_size(), 300);
    board.resize(-5, 7);
    assert_eq!(board.common_size(), -5);
}

#[test]
fn press_on_e2_starts_a_gesture() {
    let mut board = ChessBoard::new();
    let reaction = MouseHandler::handle_button_down(&mut board, PointerEvent { x: 222, y: 310 });
    assert!(reaction.redraw);
    assert_eq!(
        board.dnd_data(),
        Some(DragAndDropData {
            piece: Piece::Pawn,
            color: Color::White,
            x: 222,
            y: 310,
            origin: sq("e2"),
            target: sq("e2"),
            pending_promotion: None,
        })
    );
}

#[test]
fn e2_to_e4_is_played() {
    let mut board = ChessBoard::new();
    MouseHandler::handle_button_down(&mut board, PointerEvent { x: 222, y: 310 });
    assert_eq!(board.dnd_data().unwrap().origin, sq("e2"));
    let reaction = MouseHandler::handle_button_up(&mut board, PointerEvent { x: 222, y: 222 });
    assert!(reaction.redraw);
    let played = reaction.move_played.unwrap();
    assert_eq!(played.notation, "e4");
    assert!(played.white_player);
    assert_eq!(reaction.game_over, None);
    assert_eq!(board.dnd_data(), None);
    assert_eq!(notations(&board), vec![(String::from("e4"), true)]);
    assert_eq!(board.position().side_to_move(), Some(Color::Black));
    assert_eq!(board.position().occupant_at(sq("e4")), Some((Piece::Pawn, Color::White)));
    assert_eq!(board.position().occupant_at(sq("e2")), None);
    assert!(board.game_in_progress());
}

#[test]
fn press_on_an_empty_square_starts_nothing() {
    let mut board = ChessBoard::new();
    let reaction = board.update(Msg::ButtonDown(at(&board, "e4")));
    assert!(!reaction.redraw);
    assert_eq!(board.dnd_data(), None);
}

#[test]
fn press_on_a_piece_of_the_other_side_starts_nothing() {
    let mut board = ChessBoard::new();
    let reaction = board.update(Msg::ButtonDown(at(&board, "e7")));
    assert!(!reaction.redraw);
    assert_eq!(board.dnd_data(), None);
    drag(&mut board, "e2", "e4");
    board.update(Msg::ButtonDown(at(&board, "d2")));
    assert_eq!(board.dnd_data(), None);
    board.update(Msg::ButtonDown(at(&board, "e7")));
    assert_eq!(board.dnd_data().unwrap().color, Color::Black);
}

#[test]
fn press_off_the_board_starts_nothing() {
    let mut board = ChessBoard::new();
    board.update(Msg::ButtonDown(PointerEvent { x: 5, y: 5 }));
    assert_eq!(board.dnd_data(), None);
    board.update(Msg::ButtonDown(PointerEvent { x: -100, y: 200 }));
    assert_eq!(board.dnd_data(), None);
    board.update(Msg::ButtonDown(PointerEvent { x: 200, y: 399 }));
    assert_eq!(board.dnd_data(), None);
}

#[test]
fn a_second_press_picks_up_another_piece() {
    let mut board = ChessBoard::new();
    board.update(Msg::ButtonDown(at(&board, "e2")));
    board.update(Msg::ButtonDown(at(&board, "g1")));
    let dragged = board.dnd_data().unwrap();
    assert_eq!(dragged.piece, Piece::Knight);
    assert_eq!(dragged.origin, sq("g1"));
    board.update(Msg::ButtonDown(at(&board, "e4")));
    assert_eq!(board.dnd_data(), Some(dragged));
}

#[test]
fn target_follows_the_pointer_on_the_board() {
    let mut board = ChessBoard::new();
    board.update(Msg::ButtonDown(at(&board, "e2")));
    let over = at(&board, "f5");
    let reaction = board.update(Msg::MouseMoved(over));
    assert!(reaction.redraw);
    let dragged = board.dnd_data().unwrap();
    assert_eq!((dragged.x, dragged.y), (over.x, over.y));
    assert_eq!(dragged.origin, sq("e2"));
    assert_eq!(dragged.target, sq("f5"));
}

#[test]
fn target_stays_while_the_pointer_is_off_the_board() {
    let mut board = ChessBoard::new();
    board.update(Msg::ButtonDown(at(&board, "e2")));
    board.update(Msg::MouseMoved(at(&board, "h3")));
    board.update(Msg::MouseMoved(PointerEvent { x: 420, y: -7 }));
    let dragged = board.dnd_data().unwrap();
    assert_eq!((dragged.x, dragged.y), (420, -7));
    assert_eq!(dragged.target, sq("h3"));
    assert_eq!(dragged.origin, sq("e2"));
}

#[test]
fn moving_the_pointer_without_a_gesture_does_nothing() {
    let mut board = ChessBoard::new();
    let reaction = board.update(Msg::MouseMoved(PointerEvent { x: 200, y: 200 }));
    assert!(!reaction.redraw);
    assert_eq!(board.dnd_data(), None);
    let reaction = board.update(Msg::ButtonUp(PointerEvent { x: 200, y: 200 }));
    assert!(!reaction.redraw);
    assert!(reaction.move_played.is_none());
    assert!(board.history().is_empty());
}

#[test]
fn release_off_the_board_cancels_the_move() {
    let mut board = ChessBoard::new();
    board.update(Msg::ButtonDown(at(&board, "e2")));
    board.update(Msg::MouseMoved(at(&board, "e4")));
    let reaction = board.update(Msg::ButtonUp(PointerEvent { x: -3, y: 222 }));
    assert!(reaction.redraw);
    assert!(reaction.move_played.is_none());
    assert_eq!(reaction.game_over, None);
    assert_eq!(board.dnd_data(), None);
    assert!(board.history().is_empty());
    assert_eq!(board.position().side_to_move(), Some(Color::White));
    assert_eq!(board.position().occupant_at(sq("e2")), Some((Piece::Pawn, Color::White)));
    assert_eq!(board.position().occupant_at(sq("e4")), None);
}

#[test]
fn an_illegal_move_is_dropped_silently() {
    let mut board = ChessBoard::new();
    let reaction = drag(&mut board, "e2", "e5");
    assert!(reaction.redraw);
    assert!(reaction.move_played.is_none());
    assert_eq!(board.dnd_data(), None);
    assert!(board.history().is_empty());
    assert_eq!(board.position().side_to_move(), Some(Color::White));
    assert!(board.game_in_progress());
}

#[test]
fn release_on_the_origin_is_an_illegal_move() {
    let mut board = ChessBoard::new();
    let reaction = drag(&mut board, "e2", "e2");
    assert!(reaction.move_played.is_none());
    assert_eq!(board.dnd_data(), None);
    assert!(board.history().is_empty());
}

#[test]
fn the_release_square_counts_not_the_last_target() {
    let mut board = ChessBoard::new();
    board.update(Msg::ButtonDown(at(&board, "e2")));
    board.update(Msg::MouseMoved(at(&board, "e3")));
    let reaction = board.update(Msg::ButtonUp(at(&board, "e4")));
    assert_eq!(reaction.move_played.unwrap().notation, "e4");
}

#[test]
fn history_tags_the_mover() {
    let mut board = ChessBoard::new();
    drag(&mut board, "e2", "e4");
    drag(&mut board, "e7", "e5");
    drag(&mut board, "g1", "f3");
    assert_eq!(
        notations(&board),
        vec![
            (String::from("e4"), true),
            (String::from("e5"), false),
            (String::from("Nf3"), true),
        ]
    );
}

#[test]
fn pawn_released_on_the_far_rank_awaits_a_choice() {
    let position = Position::from_fen("8/4P3/8/8/8/8/k6K/8 w - - 0 1").unwrap();
    let mut board = ChessBoard::with_position(position);
    let reaction = drag(&mut board, "e7", "e8");
    assert!(reaction.redraw);
    assert!(reaction.move_played.is_none());
    let dragged = board.dnd_data().unwrap();
    assert_eq!(dragged.pending_promotion, Some(Color::White));
    assert_eq!(dragged.origin, sq("e7"));
    assert_eq!(dragged.target, sq("e8"));
    assert!(board.history().is_empty());
    assert_eq!(board.position().occupant_at(sq("e7")), Some((Piece::Pawn, Color::White)));
}

#[test]
fn knight_button_promotes_to_a_knight() {
    let position = Position::from_fen("8/4P3/8/8/8/8/k6K/8 w - - 0 1").unwrap();
    let mut board = ChessBoard::with_position(position);
    drag(&mut board, "e7", "e8");
    let reaction = board.update(Msg::ButtonDown(PointerEvent { x: 350, y: 50 }));
    assert_eq!(reaction.move_played.unwrap().notation, "e8=N");
    assert_eq!(board.dnd_data(), None);
    assert_eq!(board.position().occupant_at(sq("e8")), Some((Piece::Knight, Color::White)));
    assert_eq!(board.position().occupant_at(sq("e7")), None);
    assert_eq!(notations(&board), vec![(String::from("e8=N"), true)]);
}

#[test]
fn each_button_promotes_to_its_piece() {
    for (x, piece, notation) in [
        (50, Piece::Queen, "e8=Q"),
        (150, Piece::Rook, "e8=R"),
        (250, Piece::Bishop, "e8=B"),
        (350, Piece::Knight, "e8=N"),
    ] {
        let position = Position::from_fen("8/4P3/8/8/8/8/k6K/8 w - - 0 1").unwrap();
        let mut board = ChessBoard::with_position(position);
        drag(&mut board, "e7", "e8");
        let reaction =
            MouseHandler::handle_promotion_button_click(&mut board, PointerEvent { x, y: 50 });
        assert_eq!(reaction.move_played.unwrap().notation, notation);
        assert_eq!(board.position().occupant_at(sq("e8")), Some((piece, Color::White)));
    }
}

#[test]
fn a_click_beside_the_buttons_keeps_waiting() {
    let position = Position::from_fen("8/4P3/8/8/8/8/k6K/8 w - - 0 1").unwrap();
    let mut board = ChessBoard::with_position(position);
    drag(&mut board, "e7", "e8");
    let waiting = board.dnd_data();
    let reaction = board.update(Msg::ButtonDown(PointerEvent { x: 350, y: 350 }));
    assert!(!reaction.redraw);
    assert_eq!(board.dnd_data(), waiting);
    let reaction = board.update(Msg::ButtonDown(at(&board, "h2")));
    assert!(!reaction.redraw);
    assert_eq!(board.dnd_data(), waiting);
    assert!(board.history().is_empty());
}

#[test]
fn the_gesture_is_frozen_while_a_choice_is_awaited() {
    let position = Position::from_fen("8/4P3/8/8/8/8/k6K/8 w - - 0 1").unwrap();
    let mut board = ChessBoard::with_position(position);
    drag(&mut board, "e7", "e8");
    let waiting = board.dnd_data();
    let reaction = board.update(Msg::MouseMoved(at(&board, "a1")));
    assert!(!reaction.redraw);
    assert_eq!(board.dnd_data(), waiting);
    let reaction = board.update(Msg::ButtonUp(at(&board, "a1")));
    assert!(!reaction.redraw);
    assert_eq!(board.dnd_data(), waiting);
    let reaction = board.update(Msg::ButtonUp(PointerEvent { x: -1, y: -1 }));
    assert!(!reaction.redraw);
    assert_eq!(board.dnd_data(), waiting);
}

#[test]
fn an_illegal_promotion_drops_the_gesture() {
    let mut board = ChessBoard::new();
    drag(&mut board, "e2", "e8");
    assert_eq!(board.dnd_data().unwrap().pending_promotion, Some(Color::White));
    let reaction = board.update(Msg::ButtonDown(PointerEvent { x: 50, y: 50 }));
    assert!(reaction.redraw);
    assert!(reaction.move_played.is_none());
    assert_eq!(board.dnd_data(), None);
    assert!(board.history().is_empty());
    assert_eq!(board.position().side_to_move(), Some(Color::White));
}

#[test]
fn black_promotes_on_the_first_rank() {
    let position = Position::from_fen("8/8/8/8/8/8/k3p2K/8 b - - 0 1").unwrap();
    let mut board = ChessBoard::with_position(position);
    drag(&mut board, "e2", "e1");
    assert_eq!(board.dnd_data().unwrap().pending_promotion, Some(Color::Black));
    // The buttons of black are at the bottom while white is at the bottom.
    board.update(Msg::ButtonDown(PointerEvent { x: 150, y: 50 }));
    assert!(board.dnd_data().is_some());
    let reaction = board.update(Msg::ButtonDown(PointerEvent { x: 150, y: 350 }));
    let played = reaction.move_played.unwrap();
    assert_eq!(played.notation, "e1=R");
    assert!(!played.white_player);
    assert_eq!(board.position().occupant_at(sq("e1")), Some((Piece::Rook, Color::Black)));
}

#[test]
fn only_pawns_on_their_far_rank_await_a_choice() {
    // A white pawn released on the first rank, a black pawn on the eighth,
    // and a rook on either are plain moves.
    let position = Position::from_fen("1R6/4P3/8/8/8/8/k6K/8 w - - 0 1").unwrap();
    let mut board = ChessBoard::with_position(position);
    drag(&mut board, "e7", "e1");
    assert_eq!(board.dnd_data(), None);
    drag(&mut board, "b8", "h8");
    assert_eq!(board.dnd_data(), None);
    assert_eq!(notations(&board), vec![(String::from("Rh8"), true)]);
    let position = Position::from_fen("8/8/8/8/8/8/k3p2K/8 b - - 0 1").unwrap();
    let mut board = ChessBoard::with_position(position);
    drag(&mut board, "e2", "e8");
    assert_eq!(board.dnd_data(), None);
    assert!(board.history().is_empty());
}

#[test]
fn commit_promotion_takes_a_letter() {
    let position = Position::from_fen("8/4P3/8/8/8/8/k6K/8 w - - 0 1").unwrap();
    let mut board = ChessBoard::with_position(position);
    drag(&mut board, "e7", "e8");
    let waiting = board.dnd_data();
    let reaction = board.commit_promotion('k');
    assert!(!reaction.redraw);
    assert_eq!(board.dnd_data(), waiting);
    let reaction = board.commit_promotion('Q');
    assert!(!reaction.redraw);
    assert_eq!(board.dnd_data(), waiting);
    let reaction = board.commit_promotion('b');
    assert_eq!(reaction.move_played.unwrap().notation, "e8=B");
    assert_eq!(board.dnd_data(), None);
    let reaction = board.commit_promotion('q');
    assert!(!reaction.redraw);
    assert_eq!(notations(&board), vec![(String::from("e8=B"), true)]);
}

#[test]
fn checkmate_ends_the_game_once() {
    let mut board = ChessBoard::new();
    assert_eq!(drag(&mut board, "f2", "f3").game_over, None);
    assert_eq!(drag(&mut board, "e7", "e5").game_over, None);
    assert_eq!(drag(&mut board, "g2", "g4").game_over, None);
    let reaction = drag(&mut board, "d8", "h4");
    assert_eq!(
        reaction.game_over,
        Some(Outcome::Win { side: Color::Black, reason: WinReason::Checkmate })
    );
    assert_eq!(reaction.move_played.unwrap().notation, "Qh4#");
    assert!(!board.game_in_progress());
    assert_eq!(board.dnd_data(), None);
    // No press starts a gesture, and the end is not announced again.
    for name in ["e1", "e8", "a2", "h7", "e4"] {
        let reaction = board.update(Msg::ButtonDown(at(&board, name)));
        assert!(!reaction.redraw);
        assert_eq!(reaction.game_over, None);
        assert_eq!(board.dnd_data(), None);
        let reaction = board.update(Msg::ButtonUp(at(&board, name)));
        assert_eq!(reaction.game_over, None);
    }
    assert_eq!(board.history().len(), 4);
    let reaction = board.update(Msg::StartGame);
    assert!(reaction.game_started);
    assert!(board.game_in_progress());
    assert!(board.history().is_empty());
    assert_eq!(board.position().side_to_move(), Some(Color::White));
    board.update(Msg::ButtonDown(at(&board, "e2")));
    assert_eq!(board.dnd_data().unwrap().origin, sq("e2"));
}

#[test]
fn a_draw_ends_the_game() {
    let position = Position::from_fen("7k/8/6K1/8/8/8/5Q2/8 w - - 0 1").unwrap();
    let mut board = ChessBoard::with_position(position);
    let reaction = drag(&mut board, "f2", "f7");
    assert_eq!(reaction.game_over, Some(Outcome::Draw(DrawReason::Stalemate)));
    assert!(!board.game_in_progress());
    board.update(Msg::ButtonDown(at(&board, "h8")));
    assert_eq!(board.dnd_data(), None);
}

#[test]
fn settle_move_takes_what_the_engine_gave() {
    let mut board = ChessBoard::new();
    board.update(Msg::ButtonDown(at(&board, "e2")));
    let next = Position::from_fen("8/8/8/3k4/8/8/1K6/7R b - - 3 9").unwrap();
    let reaction = board.settle_move(Ok((next, String::from("Rh1")), ), None, true);
    assert!(reaction.redraw);
    assert_eq!(reaction.move_played.unwrap().notation, "Rh1");
    assert_eq!(reaction.game_over, None);
    assert_eq!(board.dnd_data(), None);
    assert!(board.game_in_progress());
    assert_eq!(board.position().occupant_at(sq("h1")), Some((Piece::Rook, Color::White)));
    assert_eq!(notations(&board), vec![(String::from("Rh1"), true)]);

    board.update(Msg::ButtonDown(at(&board, "d5")));
    assert!(board.dnd_data().is_some());
    let reaction = board.settle_move(Err(IllegalMove), Some(Outcome::Draw(DrawReason::Other)), false);
    assert!(reaction.redraw);
    assert!(reaction.move_played.is_none());
    assert_eq!(reaction.game_over, None);
    assert_eq!(board.dnd_data(), None);
    assert!(board.game_in_progress());
    assert_eq!(board.history().len(), 1);

    let last = Position::from_fen("8/8/8/3k4/8/8/1K6/8 w - - 0 10").unwrap();
    let ending = Outcome::Draw(DrawReason::InsufficientMaterial);
    let reaction = board.settle_move(Ok((last, String::from("Kxh1"))), Some(ending), false);
    assert_eq!(reaction.game_over, Some(ending));
    assert!(!board.game_in_progress());
    assert_eq!(
        notations(&board),
        vec![(String::from("Rh1"), true), (String::from("Kxh1"), false)]
    );
}

#[test]
fn begin_drag_takes_what_the_position_holds() {
    let mut board = ChessBoard::new();
    let press = PointerEvent { x: 10, y: 20 };
    let reaction = board.begin_drag(sq("c3"), press, None, Some(Color::White));
    assert!(!reaction.redraw);
    assert_eq!(board.dnd_data(), None);
    let reaction =
        board.begin_drag(sq("c3"), press, Some((Piece::Queen, Color::Black)), Some(Color::White));
    assert!(!reaction.redraw);
    assert_eq!(board.dnd_data(), None);
    let reaction = board.begin_drag(sq("c3"), press, Some((Piece::Queen, Color::Black)), None);
    assert!(!reaction.redraw);
    assert_eq!(board.dnd_data(), None);
    let reaction =
        board.begin_drag(sq("c3"), press, Some((Piece::Queen, Color::Black)), Some(Color::Black));
    assert!(reaction.redraw);
    assert_eq!(
        board.dnd_data(),
        Some(DragAndDropData {
            piece: Piece::Queen,
            color: Color::Black,
            x: 10,
            y: 20,
            origin: sq("c3"),
            target: sq("c3"),
            pending_promotion: None,
        })
    );
    board.stop_game();
    let reaction =
        board.begin_drag(sq("c3"), press, Some((Piece::Queen, Color::Black)), Some(Color::Black));
    assert!(!reaction.redraw);
    assert_eq!(board.dnd_data(), None);
}

#[test]
fn turning_the_board_mirrors_the_pointer() {
    let mut board = ChessBoard::new();
    board.update(Msg::ButtonDown(at(&board, "e2")));
    board.update(Msg::MouseMoved(PointerEvent { x: 130, y: 250 }));
    let before = board.dnd_data().unwrap();
    let reaction = board.update(Msg::ToggleOrientation);
    assert!(reaction.redraw);
    assert!(board.reversed());
    let turned = board.dnd_data().unwrap();
    assert_eq!((turned.x, turned.y), (270, 150));
    assert_eq!(turned.origin, before.origin);
    assert_eq!(turned.target, before.target);
    board.update(Msg::ToggleOrientation);
    assert!(!board.reversed());
    assert_eq!(board.dnd_data(), Some(before));
}

#[test]
fn turning_the_board_without_a_gesture() {
    let mut board = ChessBoard::new();
    board.update(Msg::ToggleOrientation);
    assert!(board.reversed());
    assert_eq!(board.dnd_data(), None);
    board.update(Msg::ButtonDown(at(&board, "e2")));
    assert_eq!(board.dnd_data().unwrap().origin, sq("e2"));
    let reaction = board.update(Msg::ButtonUp(at(&board, "e4")));
    assert_eq!(reaction.move_played.unwrap().notation, "e4");
}

#[test]
fn setting_the_orientation() {
    let mut board = ChessBoard::new();
    board.update(Msg::ButtonDown(at(&board, "e2")));
    let before = board.dnd_data().unwrap();
    board.update(Msg::SetReversed(false));
    assert!(!board.reversed());
    assert_eq!(board.dnd_data(), Some(before));
    board.update(Msg::SetReversed(true));
    assert!(board.reversed());
    let turned = board.dnd_data().unwrap();
    assert_eq!((turned.x, turned.y), (400 - before.x, 400 - before.y));
    board.update(Msg::SetReversed(true));
    assert_eq!(board.dnd_data(), Some(turned));
}

#[test]
fn buttons_of_white_move_to_the_bottom_when_the_board_is_turned() {
    let position = Position::from_fen("8/4P3/8/8/8/8/k6K/8 w - - 0 1").unwrap();
    let mut board = ChessBoard::with_position(position);
    board.update(Msg::SetReversed(true));
    drag(&mut board, "e7", "e8");
    assert_eq!(board.dnd_data().unwrap().pending_promotion, Some(Color::White));
    board.update(Msg::ButtonDown(PointerEvent { x: 50, y: 50 }));
    assert!(board.dnd_data().is_some());
    let reaction = board.update(Msg::ButtonDown(PointerEvent { x: 50, y: 350 }));
    assert_eq!(reaction.move_played.unwrap().notation, "e8=Q");
}

#[test]
fn repaint_and_resize_requests() {
    let mut board = ChessBoard::new();
    let reaction = board.update(Msg::Repaint);
    assert!(reaction.redraw);
    assert_eq!(reaction.pieces_size, None);
    let reaction = board.update(Msg::UpdatePiecesImagesSize);
    assert!(reaction.redraw);
    assert_eq!(reaction.pieces_size, Some(44));
    board.resize(1000, 2000);
    assert_eq!(board.update(Msg::UpdatePiecesImagesSize).pieces_size, Some(111));
    board.resize(-1000, 10);
    assert_eq!(board.update(Msg::UpdatePiecesImagesSize).pieces_size, Some(-111));
    board.resize(i32::MAX, i32::MAX);
    assert_eq!(board.update(Msg::UpdatePiecesImagesSize).pieces_size, Some(238370684));
}

#[test]
fn an_announced_outcome_changes_nothing() {
    let mut board = ChessBoard::new();
    board.update(Msg::ButtonDown(at(&board, "e2")));
    let dragged = board.dnd_data();
    let reaction = board.update(Msg::GameOver(Outcome::Draw(DrawReason::Other)));
    assert!(!reaction.redraw);
    assert_eq!(reaction.game_over, None);
    assert!(board.game_in_progress());
    assert_eq!(board.dnd_data(), dragged);
}

#[test]
fn stopping_the_game() {
    let mut board = ChessBoard::new();
    drag(&mut board, "e2", "e4");
    board.update(Msg::ButtonDown(at(&board, "e7")));
    let reaction = board.update(Msg::StopGame);
    assert!(reaction.game_stopped);
    assert!(!board.game_in_progress());
    assert_eq!(board.dnd_data(), None);
    assert_eq!(board.history().len(), 1);
    board.update(Msg::ButtonDown(at(&board, "e7")));
    assert_eq!(board.dnd_data(), None);
    let reaction = board.update(Msg::StopGame);
    assert!(!reaction.game_stopped);
}

#[test]
fn starting_a_new_game() {
    let mut board = ChessBoard::new();
    board.update(Msg::SetReversed(true));
    drag(&mut board, "e2", "e4");
    drag(&mut board, "e7", "e5");
    board.start_new_game();
    assert!(board.game_in_progress());
    assert!(board.history().is_empty());
    assert!(board.reversed());
    assert_eq!(board.position().side_to_move(), Some(Color::White));
    assert_eq!(board.position().occupant_at(sq("e2")), Some((Piece::Pawn, Color::White)));
    assert_eq!(board.position().occupant_at(sq("e4")), None);
}

#[test]
fn the_extent_of_the_area_is_kept() {
    let mut board = ChessBoard::new();
    board.resize(800, 600);
    drag(&mut board, "e2", "e4");
    assert_eq!(board.common_size(), 600);
    assert_eq!(board.dnd_data(), None);
    assert_eq!(board.history().len(), 1);
    let area = DrawingArea { width: 800, height: 600 };
    assert_eq!((area.width, area.height), (800, 600));
}
