use chessboard::geometry::{map_to_square, mirror_coordinate, square_center};
use chessboard::promotion::{promotion_button_at, promotion_button_left, promotion_row_top};
use chessboard::{Color, Piece, Square};

#[test]
fn maps_cell_corners_on_a_board_of_1000() {
    // Cells are 111 wide and start at 55.5.
    assert_eq!(map_to_square(55, 500, 1000, false), None);
    assert_eq!(map_to_square(56, 500, 1000, false), Some(Square { file: 0, rank: 3 }));
    assert_eq!(map_to_square(166, 500, 1000, false), Some(Square { file: 0, rank: 3 }));
    assert_eq!(map_to_square(167, 500, 1000, false), Some(Square { file: 1, rank: 3 }));
    assert_eq!(map_to_square(943, 500, 1000, false), Some(Square { file: 7, rank: 3 }));
    assert_eq!(map_to_square(944, 500, 1000, false), None);
    assert_eq!(map_to_square(500, 56, 1000, false), Some(Square { file: 4, rank: 7 }));
    assert_eq!(map_to_square(500, 943, 1000, false), Some(Square { file: 4, rank: 0 }));
    assert_eq!(map_to_square(500, 55, 1000, false), None);
    assert_eq!(map_to_square(500, 944, 1000, false), None);
}

#[test]
fn maps_with_white_at_the_top() {
    assert_eq!(map_to_square(56, 56, 1000, true), Some(Square { file: 7, rank: 0 }));
    assert_eq!(map_to_square(943, 943, 1000, true), Some(Square { file: 0, rank: 7 }));
    assert_eq!(map_to_square(222, 310, 400, true), Some(Square { file: 3, rank: 6 }));
}

#[test]
fn rejects_positions_off_the_grid() {
    assert_eq!(map_to_square(-1, 200, 400, false), None);
    assert_eq!(map_to_square(200, -1, 400, false), None);
    assert_eq!(map_to_square(399, 200, 400, false), None);
    assert_eq!(map_to_square(200, 399, 400, true), None);
    assert_eq!(map_to_square(i32::MIN, i32::MIN, 400, false), None);
    assert_eq!(map_to_square(i32::MAX, i32::MAX, 400, true), None);
}

#[test]
fn a_board_without_extent_has_no_squares() {
    assert_eq!(map_to_square(0, 0, 0, false), None);
    assert_eq!(map_to_square(0, 0, 0, true), None);
    assert_eq!(map_to_square(10, 10, -400, false), None);
    assert_eq!(map_to_square(-200, -200, -400, true), None);
}

#[test]
fn maps_on_the_largest_board() {
    let size = i32::MAX;
    assert_eq!(map_to_square(size / 2, size / 2, size, false), Some(Square { file: 4, rank: 3 }));
    assert_eq!(map_to_square(i32::MAX, 0, size, false), None);
}

#[test]
fn e2_center_on_a_board_of_400() {
    let e2 = Square { file: 4, rank: 1 };
    assert_eq!(square_center(e2, 400, false), Some((222, 310)));
    assert_eq!(map_to_square(222, 310, 400, false), Some(e2));
    assert_eq!(square_center(e2, 400, true), Some((177, 88)));
    assert_eq!(map_to_square(177, 88, 400, true), Some(e2));
}

#[test]
fn square_center_needs_a_board_and_a_square() {
    assert_eq!(square_center(Square { file: 8, rank: 0 }, 400, false), None);
    assert_eq!(square_center(Square { file: 0, rank: 8 }, 400, false), None);
    assert_eq!(square_center(Square { file: 0, rank: 0 }, 0, false), None);
    assert_eq!(square_center(Square { file: 0, rank: 0 }, -5, true), None);
    assert_eq!(square_center(Square { file: 7, rank: 0 }, i32::MAX, false), Some((1906965478, 1906965478)));
}

#[test]
fn centers_map_back_to_their_squares() {
    for size in [16, 17, 18, 19, 100, 400, 401, 1000, 65535, i32::MAX] {
        for reversed in [false, true] {
            for file in 0..8u8 {
                for rank in 0..8u8 {
                    let square = Square { file, rank };
                    let (x, y) = square_center(square, size, reversed).unwrap();
                    assert_eq!(map_to_square(x, y, size, reversed), Some(square));
                }
            }
        }
    }
}

#[test]
fn centers_miss_their_squares_on_a_board_of_15() {
    let square = Square { file: 2, rank: 7 };
    let (x, y) = square_center(square, 15, false).unwrap();
    assert_eq!((x, y), (4, 1));
    assert_eq!(map_to_square(x, y, 15, false), Some(Square { file: 1, rank: 7 }));
}

#[test]
fn square_new_checks_both_coordinates() {
    assert_eq!(Square::new(0, 0), Some(Square { file: 0, rank: 0 }));
    assert_eq!(Square::new(7, 7), Some(Square { file: 7, rank: 7 }));
    assert_eq!(Square::new(8, 0), None);
    assert_eq!(Square::new(0, 8), None);
    assert_eq!(Square::new(255, 255), None);
}

#[test]
fn mirrors_through_the_middle() {
    assert_eq!(mirror_coordinate(100, 400), 300);
    assert_eq!(mirror_coordinate(300, 400), 100);
    assert_eq!(mirror_coordinate(-20, 400), 420);
    assert_eq!(mirror_coordinate(0, 0), 0);
    assert_eq!(mirror_coordinate(mirror_coordinate(123, 401), 401), 123);
}

#[test]
fn mirror_stops_at_the_ends_of_the_range() {
    assert_eq!(mirror_coordinate(i32::MIN, 400), i32::MAX);
    assert_eq!(mirror_coordinate(i32::MAX, -400), i32::MIN);
    assert_eq!(mirror_coordinate(i32::MAX, i32::MAX), 0);
    assert_eq!(mirror_coordinate(i32::MIN, -1), i32::MAX);
}

#[test]
fn promotion_buttons_of_white_are_at_the_top() {
    // Buttons are 60 across on a board of 400, from 20, 120, 220 and 320.
    assert_eq!(promotion_button_at(20, 20, 400, Color::White, false), Some(Piece::Queen));
    assert_eq!(promotion_button_at(80, 80, 400, Color::White, false), Some(Piece::Queen));
    assert_eq!(promotion_button_at(150, 50, 400, Color::White, false), Some(Piece::Rook));
    assert_eq!(promotion_button_at(250, 50, 400, Color::White, false), Some(Piece::Bishop));
    assert_eq!(promotion_button_at(350, 50, 400, Color::White, false), Some(Piece::Knight));
    assert_eq!(promotion_button_at(380, 80, 400, Color::White, false), Some(Piece::Knight));
    assert_eq!(promotion_button_at(350, 350, 400, Color::White, false), None);
}

#[test]
fn promotion_buttons_follow_side_and_orientation() {
    assert_eq!(promotion_button_at(50, 350, 400, Color::Black, false), Some(Piece::Queen));
    assert_eq!(promotion_button_at(50, 50, 400, Color::Black, false), None);
    assert_eq!(promotion_button_at(50, 350, 400, Color::White, true), Some(Piece::Queen));
    assert_eq!(promotion_button_at(50, 50, 400, Color::White, true), None);
    assert_eq!(promotion_button_at(50, 50, 400, Color::Black, true), Some(Piece::Queen));
    assert_eq!(promotion_button_at(50, 350, 400, Color::Black, true), None);
    assert_eq!(promotion_row_top(Color::White, false), 5);
    assert_eq!(promotion_row_top(Color::White, true), 80);
    assert_eq!(promotion_row_top(Color::Black, false), 80);
    assert_eq!(promotion_row_top(Color::Black, true), 5);
}

#[test]
fn clicks_between_the_buttons_choose_nothing() {
    assert_eq!(promotion_button_at(19, 50, 400, Color::White, false), None);
    assert_eq!(promotion_button_at(81, 50, 400, Color::White, false), None);
    assert_eq!(promotion_button_at(119, 50, 400, Color::White, false), None);
    assert_eq!(promotion_button_at(381, 50, 400, Color::White, false), None);
    assert_eq!(promotion_button_at(50, 19, 400, Color::White, false), None);
    assert_eq!(promotion_button_at(50, 81, 400, Color::White, false), None);
    assert_eq!(promotion_button_at(-50, 50, 400, Color::White, false), None);
}

#[test]
fn a_click_on_all_buttons_at_once_chooses_nothing() {
    // Without extent the four buttons fall on one point.
    assert_eq!(promotion_button_at(0, 0, 0, Color::White, false), None);
    assert_eq!(promotion_button_at(1, 1, 0, Color::White, false), None);
    assert_eq!(promotion_button_at(-50, -50, -400, Color::White, false), None);
}

#[test]
fn promotion_button_edges() {
    assert_eq!(promotion_button_left(Piece::Queen), Some(5));
    assert_eq!(promotion_button_left(Piece::Rook), Some(30));
    assert_eq!(promotion_button_left(Piece::Bishop), Some(55));
    assert_eq!(promotion_button_left(Piece::Knight), Some(80));
    assert_eq!(promotion_button_left(Piece::Pawn), None);
    assert_eq!(promotion_button_left(Piece::King), None);
}
