//! What there is to draw of a board: the scene that a renderer paints.
//!
//! The scene speaks of cells by their row and column on the rendered board,
//! from the top left, and of extents in hundredths of the board's extent.

use vstd::prelude::*;
use crate::chessboard::{ChessBoard, DragAndDropData, ModelView};
use crate::geometry::{file_of_column, rank_of_row, Square};
use crate::pieces::{get_piece_type_from, glyph, Color, Piece};
use crate::promotion::{button_top, promotion_row_top};

verus! {

/// Builds the scene of a board.
pub struct Painter;

/// Colour of a cell's background.
#[derive(Clone, Copy, Debug, PartialEq, Eq, Structural)]
pub enum Shade {
    /// A light cell.
    Light,
    /// A dark cell.
    Dark,
    /// The cell that the dragged piece is over.
    Target,
    /// The cell that the dragged piece was picked up from.
    Origin,
}

/// A cell of the rendered board.
#[derive(Clone, Copy, Debug, PartialEq, Eq, Structural)]
pub struct CellPaint {
    pub shade: Shade,
    /// Glyph of the piece to draw on the cell, if any.
    pub piece: Option<char>,
}

/// The dragged piece: its glyph, and the top left corner of its image.
#[derive(Clone, Copy, Debug, PartialEq, Eq, Structural)]
pub struct MovedPiece {
    pub glyph: char,
    pub x: i64,
    pub y: i64,
}

/// The row of promotion buttons: the top edge of the row, and the glyphs of
/// the pieces on the buttons from left to right.
#[derive(Clone, Copy, Debug, PartialEq, Eq, Structural)]
pub struct PromotionButtons {
    pub top: i64,
    pub queen: char,
    pub rook: char,
    pub bishop: char,
    pub knight: char,
}

/// Everything there is to draw.
#[derive(Debug)]
pub struct Scene {
    /// Extent of the rendered board.
    pub size: i32,
    /// The cells, row by row from the top, each row from the left.
    pub cells: Vec<CellPaint>,
    /// The letters above and below the columns, from the left.
    pub file_labels: Vec<char>,
    /// The digits beside the rows, from the top.
    pub rank_labels: Vec<char>,
    /// Whether white is to move.
    pub white_turn: bool,
    pub moved_piece: Option<MovedPiece>,
    pub promotion_buttons: Option<PromotionButtons>,
}

/// The square shown in a cell.
pub open spec fn cell_square(row: int, col: int, reversed: bool) -> Square {
    Square {
        file: file_of_column(col, reversed) as u8,
        rank: rank_of_row(row, reversed) as u8,
    }
}

/// Background of a cell: the origin and the target of the gesture stand
/// out, the origin first; the other cells alternate, the top left one light.
pub open spec fn shade_of(state: ModelView, row: int, col: int) -> Shade {
    let square = cell_square(row, col, state.reversed);
    match state.dnd_data {
        Some(dragged) => if dragged.origin == square {
            Shade::Origin
        } else if dragged.target == square {
            Shade::Target
        } else {
            plain_shade(row, col)
        },
        None => plain_shade(row, col),
    }
}

/// Background of a cell that does not stand out.
pub open spec fn plain_shade(row: int, col: int) -> Shade {
    if (row + col) % 2 == 0 {
        Shade::Light
    } else {
        Shade::Dark
    }
}

/// Glyph of the piece drawn on a cell: the piece on its square, but for the
/// piece being dragged.
pub open spec fn piece_shown(state: ModelView, row: int, col: int) -> Option<char> {
    let square = cell_square(row, col, state.reversed);
    if state.dnd_data matches Some(dragged) && dragged.origin == square {
        None
    } else {
        match state.position.occupant_at(square) {
            Some((piece, color)) => Some(glyph(piece, color)),
            None => None,
        }
    }
}

/// What is drawn of a cell.
pub open spec fn cell_paint(state: ModelView, row: int, col: int) -> CellPaint {
    CellPaint { shade: shade_of(state, row, col), piece: piece_shown(state, row, col) }
}

/// Letter of the file shown in a column.
pub open spec fn file_label(col: int, reversed: bool) -> char {
    seq!['A', 'B', 'C', 'D', 'E', 'F', 'G', 'H'][file_of_column(col, reversed)]
}

/// Digit of the rank shown in a row.
pub open spec fn rank_label(row: int, reversed: bool) -> char {
    seq!['1', '2', '3', '4', '5', '6', '7', '8'][rank_of_row(row, reversed)]
}

/// Half the extent of a piece's image: 55 thousandths of the board's extent,
/// rounded towards zero.
pub open spec fn half_piece(board_size: int) -> int {
    if board_size >= 0 {
        (55 * board_size) / 1000
    } else {
        -((55 * -board_size) / 1000)
    }
}

/// The dragged piece as it is drawn: with its middle under the pointer.
pub open spec fn moved_piece_of(dragged: DragAndDropData, board_size: int) -> MovedPiece {
    MovedPiece {
        glyph: glyph(dragged.piece, dragged.color),
        x: (dragged.x - half_piece(board_size)) as i64,
        y: (dragged.y - half_piece(board_size)) as i64,
    }
}

/// The promotion buttons as they are drawn for a side.
pub open spec fn buttons_of(mover: Color, reversed: bool) -> PromotionButtons {
    PromotionButtons {
        top: button_top(mover, reversed) as i64,
        queen: glyph(Piece::Queen, mover),
        rook: glyph(Piece::Rook, mover),
        bishop: glyph(Piece::Bishop, mover),
        knight: glyph(Piece::Knight, mover),
    }
}

/// Whether a scene shows a board in a given state and of a given extent.
pub open spec fn shows(scene: Scene, state: ModelView, board_size: int) -> bool {
    &&& scene.size == board_size
    &&& scene.cells@.len() == 64
    &&& forall|row: int, col: int|
        0 <= row < 8 && 0 <= col < 8 ==> #[trigger] scene.cells@[row * 8 + col] == cell_paint(
            state,
            row,
            col,
        )
    &&& scene.file_labels@.len() == 8
    &&& forall|col: int|
        0 <= col < 8 ==> #[trigger] scene.file_labels@[col] == file_label(col, state.reversed)
    &&& scene.rank_labels@.len() == 8
    &&& forall|row: int|
        0 <= row < 8 ==> #[trigger] scene.rank_labels@[row] == rank_label(row, state.reversed)
    &&& scene.white_turn == (state.position.side_to_move() == Some(Color::White))
    &&& scene.moved_piece == match state.dnd_data {
        Some(dragged) => Some(moved_piece_of(dragged, board_size)),
        None => None,
    }
    &&& scene.promotion_buttons == match state.dnd_data {
        Some(dragged) => match dragged.pending_promotion {
            Some(mover) => Some(buttons_of(mover, state.reversed)),
            None => None,
        },
        None => None,
    }
}

impl Painter {
    /// Top edge of the row of promotion buttons, in hundredths of the
    /// board's extent, where the row is near the top and where it is near the
    /// bottom.
    pub const BUTTON_Y1_RATIO: i64 = crate::promotion::BUTTON_Y1_RATIO;

    pub const BUTTON_Y2_RATIO: i64 = crate::promotion::BUTTON_Y2_RATIO;

    /// Extent of a promotion button, in hundredths of the board's extent.
    pub const BUTTON_SIZE_RATIO: i64 = crate::promotion::BUTTON_SIZE_RATIO;

    /// Left edges of the promotion buttons, in hundredths of the board's
    /// extent.
    pub const QUEEN_BUTTON_X_RATIO: i64 = crate::promotion::QUEEN_BUTTON_X_RATIO;

    pub const ROOK_BUTTON_X_RATIO: i64 = crate::promotion::ROOK_BUTTON_X_RATIO;

    pub const BISHOP_BUTTON_X_RATIO: i64 = crate::promotion::BISHOP_BUTTON_X_RATIO;

    pub const KNIGHT_BUTTON_X_RATIO: i64 = crate::promotion::KNIGHT_BUTTON_X_RATIO;

    /// Builds the scene of a board.
    pub fn draw(board: &ChessBoard) -> (scene: Scene)
        ensures
            shows(scene, board@, board.spec_common_size()),
    {
        let size: i32 = board.common_size();
        let reversed = board.reversed();
        let white_turn = match board.position().side_to_move() {
            Some(Color::White) => true,
            _ => false,
        };
        let shades = Painter::paint_cells(board);
        let pieces = Painter::paint_pieces(board);
        let mut cells: Vec<CellPaint> = Vec::new();
        let mut k: usize = 0;
        while k < 64
            invariant
                0 <= k <= 64,
                shades@.len() == 64,
                pieces@.len() == 64,
                cells@.len() == k,
                forall|j: int|
                    0 <= j < k ==> #[trigger] cells@[j] == (CellPaint {
                        shade: shades@[j],
                        piece: pieces@[j],
                    }),
            decreases 64 - k,
        {
            cells.push(CellPaint { shade: shades[k], piece: pieces[k] });
            k += 1;
        }
        let (file_labels, rank_labels) = Painter::draw_coordinates(reversed);
        let (moved_piece, promotion_buttons) = match board.dnd_data() {
            Some(dragged) => (
                Some(Painter::draw_moved_piece(dragged, size)),
                match dragged.pending_promotion {
                    Some(mover) => Some(Painter::draw_promotion_buttons(mover, reversed)),
                    None => None,
                },
            ),
            None => (None, None),
        };
        Scene { size, cells, file_labels, rank_labels, white_turn, moved_piece, promotion_buttons }
    }

    /// The square shown in a cell.
    fn square_of_cell(row: u8, col: u8, reversed: bool) -> (square: Square)
        requires
            row < 8,
            col < 8,
        ensures
            square == cell_square(row as int, col as int, reversed),
            square.valid(),
    {
        let file: u8 = if reversed { 7 - col } else { col };
        let rank: u8 = if reversed { row } else { 7 - row };
        Square { file, rank }
    }

    /// Backgrounds of the cells, row by row.
    fn paint_cells(board: &ChessBoard) -> (shades: Vec<Shade>)
        ensures
            shades@.len() == 64,
            forall|row: int, col: int|
                0 <= row < 8 && 0 <= col < 8 ==> #[trigger] shades@[row * 8 + col] == shade_of(
                    board@,
                    row,
                    col,
                ),
    {
        let reversed = board.reversed();
        let dnd_data = board.dnd_data();
        let mut shades: Vec<Shade> = Vec::new();
        let mut row: u8 = 0;
        while row < 8
            invariant
                0 <= row <= 8,
                reversed == board@.reversed,
                dnd_data == board@.dnd_data,
                shades@.len() == row * 8,
                forall|r: int, c: int|
                    0 <= r < row && 0 <= c < 8 ==> #[trigger] shades@[r * 8 + c] == shade_of(
                        board@,
                        r,
                        c,
                    ),
            decreases 8 - row,
        {
            let mut col: u8 = 0;
            while col < 8
                invariant
                    0 <= row < 8,
                    0 <= col <= 8,
                    reversed == board@.reversed,
                    dnd_data == board@.dnd_data,
                    shades@.len() == row * 8 + col,
                    forall|r: int, c: int|
                        0 <= r < row && 0 <= c < 8 ==> #[trigger] shades@[r * 8 + c] == shade_of(
                            board@,
                            r,
                            c,
                        ),
                    forall|c: int|
                        0 <= c < col ==> #[trigger] shades@[row * 8 + c] == shade_of(
                            board@,
                            row as int,
                            c,
                        ),
                decreases 8 - col,
            {
                let square = Painter::square_of_cell(row, col, reversed);
                let is_white_cell = (row + col) % 2 == 0;
                let mut background = if is_white_cell { Shade::Light } else { Shade::Dark };
                match dnd_data {
                    Some(dragged) => {
                        if dragged.target == square {
                            background = Shade::Target;
                        }
                        if dragged.origin == square {
                            background = Shade::Origin;
                        }
                    },
                    None => {},
                }
                shades.push(background);
                col += 1;
            }
            row += 1;
        }
        shades
    }

    /// Glyphs of the pieces drawn on the cells, row by row.
    fn paint_pieces(board: &ChessBoard) -> (pieces: Vec<Option<char>>)
        ensures
            pieces@.len() == 64,
            forall|row: int, col: int|
                0 <= row < 8 && 0 <= col < 8 ==> #[trigger] pieces@[row * 8 + col] == piece_shown(
                    board@,
                    row,
                    col,
                ),
    {
        let reversed = board.reversed();
        let dnd_data = board.dnd_data();
        let mut pieces: Vec<Option<char>> = Vec::new();
        let mut row: u8 = 0;
        while row < 8
            invariant
                0 <= row <= 8,
                reversed == board@.reversed,
                dnd_data == board@.dnd_data,
                pieces@.len() == row * 8,
                forall|r: int, c: int|
                    0 <= r < row && 0 <= c < 8 ==> #[trigger] pieces@[r * 8 + c] == piece_shown(
                        board@,
                        r,
                        c,
                    ),
            decreases 8 - row,
        {
            let mut col: u8 = 0;
            while col < 8
                invariant
                    0 <= row < 8,
                    0 <= col <= 8,
                    reversed == board@.reversed,
                    dnd_data == board@.dnd_data,
                    pieces@.len() == row * 8 + col,
                    forall|r: int, c: int|
                        0 <= r < row && 0 <= c < 8 ==> #[trigger] pieces@[r * 8 + c]
                            == piece_shown(board@, r, c),
                    forall|c: int|
                        0 <= c < col ==> #[trigger] pieces@[row * 8 + c] == piece_shown(
                            board@,
                            row as int,
                            c,
                        ),
                decreases 8 - col,
            {
                let square = Painter::square_of_cell(row, col, reversed);
                let is_moved_piece = match dnd_data {
                    Some(dragged) => dragged.origin == square,
                    None => false,
                };
                let shown = if is_moved_piece {
                    None
                } else {
                    match board.position().occupant_at(square) {
                        Some((piece, color)) => Some(get_piece_type_from(piece, color)),
                        None => None,
                    }
                };
                pieces.push(shown);
                col += 1;
            }
            row += 1;
        }
        pieces
    }

    /// Letters of the columns and digits of the rows.
    fn draw_coordinates(reversed: bool) -> (labels: (Vec<char>, Vec<char>))
        ensures
            labels.0@.len() == 8,
            labels.1@.len() == 8,
            forall|col: int| 0 <= col < 8 ==> #[trigger] labels.0@[col] == file_label(col, reversed),
            forall|row: int| 0 <= row < 8 ==> #[trigger] labels.1@[row] == rank_label(row, reversed),
    {
        let files: Vec<char> = if reversed {
            vec!['H', 'G', 'F', 'E', 'D', 'C', 'B', 'A']
        } else {
            vec!['A', 'B', 'C', 'D', 'E', 'F', 'G', 'H']
        };
        let ranks: Vec<char> = if reversed {
            vec!['1', '2', '3', '4', '5', '6', '7', '8']
        } else {
            vec!['8', '7', '6', '5', '4', '3', '2', '1']
        };
        (files, ranks)
    }

    /// The dragged piece, with its middle under the pointer.
    fn draw_moved_piece(dragged: DragAndDropData, board_size: i32) -> (moved: MovedPiece)
        ensures
            moved == moved_piece_of(dragged, board_size as int),
    {
        let half: i64 = if board_size >= 0 {
            (55 * (board_size as i64)) / 1000
        } else {
            -((55 * -(board_size as i64)) / 1000)
        };
        MovedPiece {
            glyph: get_piece_type_from(dragged.piece, dragged.color),
            x: dragged.x as i64 - half,
            y: dragged.y as i64 - half,
        }
    }

    /// The promotion buttons offered to a side.
    fn draw_promotion_buttons(mover: Color, reversed: bool) -> (buttons: PromotionButtons)
        ensures
            buttons == buttons_of(mover, reversed),
    {
        PromotionButtons {
            top: promotion_row_top(mover, reversed),
            queen: get_piece_type_from(Piece::Queen, mover),
            rook: get_piece_type_from(Piece::Rook, mover),
            bishop: get_piece_type_from(Piece::Bishop, mover),
            knight: get_piece_type_from(Piece::Knight, mover),
        }
    }
}

} // verus!
