//! The four buttons that offer the pieces a pawn can be promoted to, and the
//! test of a position against them.
//!
//! Each button is a square of 15 hundredths of the board's extent. The
//! buttons stand in one row; their left edges and the row's top edge are given
//! in hundredths of the board's extent. The row is near the edge of the
//! rendered board where the promoting side's pawns arrive.

use vstd::prelude::*;
use crate::pieces::{Color, Piece};

verus! {

/// Extent of a button, in hundredths of the board's extent.
pub const BUTTON_SIZE_RATIO: i64 = 15;

/// Left edges of the buttons, in hundredths of the board's extent.
pub const QUEEN_BUTTON_X_RATIO: i64 = 5;

pub const ROOK_BUTTON_X_RATIO: i64 = 30;

pub const BISHOP_BUTTON_X_RATIO: i64 = 55;

pub const KNIGHT_BUTTON_X_RATIO: i64 = 80;

/// Top edge of the row of buttons where it is near the top of the board, and
/// where it is near the bottom, in hundredths of the board's extent.
pub const BUTTON_Y1_RATIO: i64 = 5;

pub const BUTTON_Y2_RATIO: i64 = 80;

/// Extent of a button, in hundredths of the board's extent.
pub open spec fn button_extent() -> int {
    BUTTON_SIZE_RATIO as int
}

/// Whether a pawn can be promoted to a piece.
pub open spec fn is_promotion_piece(piece: Piece) -> bool {
    piece == Piece::Queen || piece == Piece::Rook || piece == Piece::Bishop || piece
        == Piece::Knight
}

/// Left edge of the button of a piece, in hundredths of the board's extent.
pub open spec fn button_left(piece: Piece) -> int
    recommends
        is_promotion_piece(piece),
{
    match piece {
        Piece::Queen => QUEEN_BUTTON_X_RATIO as int,
        Piece::Rook => ROOK_BUTTON_X_RATIO as int,
        Piece::Bishop => BISHOP_BUTTON_X_RATIO as int,
        _ => KNIGHT_BUTTON_X_RATIO as int,
    }
}

/// Whether the rank on which the pawns of a side arrive is rendered at the
/// top of the board.
pub open spec fn arrives_at_top(mover: Color, reversed: bool) -> bool {
    (mover == Color::White) != reversed
}

/// Top edge of the row of buttons, in hundredths of the board's extent.
pub open spec fn button_top(mover: Color, reversed: bool) -> int {
    if arrives_at_top(mover, reversed) {
        BUTTON_Y1_RATIO as int
    } else {
        BUTTON_Y2_RATIO as int
    }
}

/// Whether a coordinate lies between an edge of a button and the opposite
/// edge, both included.
pub open spec fn within_button(coord: int, edge: int, board_size: int) -> bool {
    edge * board_size <= 100 * coord <= (edge + button_extent()) * board_size
}

/// Whether a coordinate lies within the row of buttons offered to a side.
pub open spec fn within_row(y: int, board_size: int, mover: Color, reversed: bool) -> bool {
    within_button(y, button_top(mover, reversed), board_size)
}

/// Whether a position lies on the button of a piece.
pub open spec fn on_button(
    x: int,
    y: int,
    board_size: int,
    piece: Piece,
    mover: Color,
    reversed: bool,
) -> bool {
    &&& within_row(y, board_size, mover, reversed)
    &&& is_promotion_piece(piece)
    &&& within_button(x, button_left(piece), board_size)
}

/// The piece chosen by a click: the piece whose button the position lies on,
/// where it lies on exactly one button.
pub open spec fn promotion_choice(x: int, y: int, board_size: int, mover: Color, reversed: bool)
    -> Option<Piece> {
    let queen = on_button(x, y, board_size, Piece::Queen, mover, reversed);
    let rook = on_button(x, y, board_size, Piece::Rook, mover, reversed);
    let bishop = on_button(x, y, board_size, Piece::Bishop, mover, reversed);
    let knight = on_button(x, y, board_size, Piece::Knight, mover, reversed);
    if queen && !rook && !bishop && !knight {
        Some(Piece::Queen)
    } else if rook && !queen && !bishop && !knight {
        Some(Piece::Rook)
    } else if bishop && !queen && !rook && !knight {
        Some(Piece::Bishop)
    } else if knight && !queen && !rook && !bishop {
        Some(Piece::Knight)
    } else {
        None
    }
}

/// Whether a coordinate lies within a button that starts at the given edge.
fn lies_within(coord: i32, edge: i64, board_size: i32) -> (inside: bool)
    requires
        0 <= edge <= 100,
    ensures
        inside == within_button(coord as int, edge as int, board_size as int),
{
    let scaled: i64 = 100 * (coord as i64);
    let size: i64 = board_size as i64;
    assert(-0x100_0000_0000 <= edge * size <= 0x100_0000_0000 && -0x100_0000_0000 <= (edge
        + BUTTON_SIZE_RATIO) * size <= 0x100_0000_0000) by (nonlinear_arith)
        requires
            0 <= edge <= 100,
            BUTTON_SIZE_RATIO == 15,
            -0x8000_0000 <= size < 0x8000_0000,
    ;
    let low: i64 = edge * size;
    let high: i64 = (edge + BUTTON_SIZE_RATIO) * size;
    low <= scaled && scaled <= high
}

/// Top edge of the row of buttons offered to a side, in hundredths of the
/// board's extent.
pub fn promotion_row_top(mover: Color, reversed: bool) -> (top: i64)
    ensures
        top == button_top(mover, reversed),
{
    let white = match mover {
        Color::White => true,
        Color::Black => false,
    };
    if white != reversed {
        BUTTON_Y1_RATIO
    } else {
        BUTTON_Y2_RATIO
    }
}

/// Left edge of the button of a piece, in hundredths of the board's extent;
/// `None` for a piece that a pawn cannot be promoted to.
pub fn promotion_button_left(piece: Piece) -> (left: Option<i64>)
    ensures
        left == if is_promotion_piece(piece) {
            Some(button_left(piece) as i64)
        } else {
            None
        },
{
    match piece {
        Piece::Queen => Some(QUEEN_BUTTON_X_RATIO),
        Piece::Rook => Some(ROOK_BUTTON_X_RATIO),
        Piece::Bishop => Some(BISHOP_BUTTON_X_RATIO),
        Piece::Knight => Some(KNIGHT_BUTTON_X_RATIO),
        _ => None,
    }
}

/// Tests a position against the four buttons offered to a side.
pub fn promotion_button_at(x: i32, y: i32, board_size: i32, mover: Color, reversed: bool) -> (choice:
    Option<Piece>)
    ensures
        choice == promotion_choice(x as int, y as int, board_size as int, mover, reversed),
        choice matches Some(piece) ==> is_promotion_piece(piece),
{
    let top: i64 = promotion_row_top(mover, reversed);
    if !lies_within(y, top, board_size) {
        return None;
    }
    let queen = lies_within(x, QUEEN_BUTTON_X_RATIO, board_size);
    let rook = lies_within(x, ROOK_BUTTON_X_RATIO, board_size);
    let bishop = lies_within(x, BISHOP_BUTTON_X_RATIO, board_size);
    let knight = lies_within(x, KNIGHT_BUTTON_X_RATIO, board_size);
    if queen && !rook && !bishop && !knight {
        Some(Piece::Queen)
    } else if rook && !queen && !bishop && !knight {
        Some(Piece::Rook)
    } else if bishop && !queen && !rook && !knight {
        Some(Piece::Bishop)
    } else if knight && !queen && !rook && !bishop {
        Some(Piece::Knight)
    } else {
        None
    }
}

/// On a board that has an extent no position lies on two buttons: a click
/// chooses the piece of whichever button it lands on.
pub proof fn lemma_buttons_apart(
    x: int,
    y: int,
    board_size: int,
    piece: Piece,
    mover: Color,
    reversed: bool,
)
    requires
        board_size > 0,
        on_button(x, y, board_size, piece, mover, reversed),
    ensures
        promotion_choice(x, y, board_size, mover, reversed) == Some(piece),
{
    assert(within_button(x, 5, board_size) == (5 * board_size <= 100 * x <= 20 * board_size));
    assert(within_button(x, 30, board_size) == (30 * board_size <= 100 * x <= 45 * board_size));
    assert(within_button(x, 55, board_size) == (55 * board_size <= 100 * x <= 70 * board_size));
    assert(within_button(x, 80, board_size) == (80 * board_size <= 100 * x <= 95 * board_size));
}

} // verus!
