//! Board geometry: squares, and the mapping between positions on the
//! rendered board and squares.
//!
//! Positions and the board's extent are integers of one common unit (pixels,
//! or a fixed subdivision of pixels). A cell is 111/1000 of the board's
//! extent wide, and the 8x8 grid starts half a cell from the top left corner.

use vstd::prelude::*;

verus! {

/// A square of the board: file 0 is the a-file, rank 0 is the first rank.
#[derive(Clone, Copy, Debug, PartialEq, Eq, Structural)]
pub struct Square {
    pub file: u8,
    pub rank: u8,
}

impl Square {
    /// Both coordinates lie on the board.
    pub open spec fn valid(self) -> bool {
        self.file <= 7 && self.rank <= 7
    }

    /// The square with the given coordinates, if they lie on the board.
    pub fn new(file: u8, rank: u8) -> (square: Option<Square>)
        ensures
            square == if file <= 7 && rank <= 7 {
                Some(Square { file, rank })
            } else {
                None
            },
    {
        if file <= 7 && rank <= 7 {
            Some(Square { file, rank })
        } else {
            None
        }
    }
}

/// Index of the grid line (column or row) that a coordinate falls in:
/// the coordinate less half a cell, divided by the cell's width, rounded down.
/// Indices 0 to 7 are the board's cells.
pub open spec fn grid_index(coord: int, board_size: int) -> int
    recommends
        board_size > 0,
{
    (2000 * coord - 111 * board_size) / (222 * board_size)
}

/// File shown in a column of the rendered board: the a-file is on the left
/// unless the board is turned round.
pub open spec fn file_of_column(column: int, reversed: bool) -> int {
    if reversed {
        7 - column
    } else {
        column
    }
}

/// Rank shown in a row of the rendered board: the eighth rank is at the top
/// unless the board is turned round.
pub open spec fn rank_of_row(row: int, reversed: bool) -> int {
    if reversed {
        row
    } else {
        7 - row
    }
}

/// The square under a position, or `None` where the position is off the grid
/// or the board has no extent.
pub open spec fn square_at(x: int, y: int, board_size: int, reversed: bool) -> Option<Square> {
    let file = file_of_column(grid_index(x, board_size), reversed);
    let rank = rank_of_row(grid_index(y, board_size), reversed);
    if board_size > 0 && 0 <= file <= 7 && 0 <= rank <= 7 {
        Some(Square { file: file as u8, rank: rank as u8 })
    } else {
        None
    }
}

/// Grid index of a coordinate where it is one of the board's cells.
fn cell_index(coord: i32, board_size: i32) -> (index: Option<u8>)
    requires
        board_size > 0,
    ensures
        index == if 0 <= grid_index(coord as int, board_size as int) <= 7 {
            Some(grid_index(coord as int, board_size as int) as u8)
        } else {
            None
        },
{
    let numerator: i64 = 2000 * (coord as i64) - 111 * (board_size as i64);
    let denominator: i64 = 222 * (board_size as i64);
    if numerator < 0 {
        assert(numerator / denominator < 0) by (nonlinear_arith)
            requires
                numerator < 0,
                denominator > 0,
        ;
        None
    } else {
        let quotient: u64 = (numerator as u64) / (denominator as u64);
        if quotient <= 7 {
            Some(quotient as u8)
        } else {
            None
        }
    }
}

/// Maps a position on the rendered board to the square under it.
pub fn map_to_square(x: i32, y: i32, board_size: i32, reversed: bool) -> (square: Option<Square>)
    ensures
        square == square_at(x as int, y as int, board_size as int, reversed),
        square matches Some(s) ==> s.valid(),
{
    if board_size <= 0 {
        return None;
    }
    match (cell_index(x, board_size), cell_index(y, board_size)) {
        (Some(column), Some(row)) => {
            let file: u8 = if reversed { 7 - column } else { column };
            let rank: u8 = if reversed { row } else { 7 - row };
            Some(Square { file, rank })
        },
        _ => None,
    }
}

/// Column in which a file is shown.
pub open spec fn column_of_file(file: int, reversed: bool) -> int {
    if reversed {
        7 - file
    } else {
        file
    }
}

/// Row in which a rank is shown.
pub open spec fn row_of_rank(rank: int, reversed: bool) -> int {
    if reversed {
        rank
    } else {
        7 - rank
    }
}

/// Coordinate of the middle of a grid line's cell, rounded down: one cell
/// for each line before it, and the half cell of the margin and the half cell
/// to its own middle.
pub open spec fn cell_center(index: int, board_size: int) -> int {
    (111 * board_size * (index + 1)) / 1000
}

/// Position of the middle of a square.
pub open spec fn center_of(square: Square, board_size: int, reversed: bool) -> (int, int) {
    (
        cell_center(column_of_file(square.file as int, reversed), board_size),
        cell_center(row_of_rank(square.rank as int, reversed), board_size),
    )
}

/// Coordinate of the middle of a cell of the board.
fn cell_middle(index: u8, board_size: i32) -> (coord: i32)
    requires
        index <= 7,
        board_size > 0,
    ensures
        coord == cell_center(index as int, board_size as int),
{
    let cell: u64 = 111 * (board_size as u64);
    let cells: u64 = index as u64 + 1;
    assert(cell * cells <= cell * 8) by (nonlinear_arith)
        requires
            cells <= 8,
    ;
    let scaled: u64 = cell * cells;
    let coord: u64 = scaled / 1000;
    coord as i32
}

/// The position of the middle of a square of the board, where the board has
/// an extent.
pub fn square_center(square: Square, board_size: i32, reversed: bool) -> (center: Option<
    (i32, i32),
>)
    ensures
        match center {
            Some((x, y)) => square.valid() && board_size > 0 && (x as int, y as int) == center_of(
                square,
                board_size as int,
                reversed,
            ),
            None => !(square.valid() && board_size > 0),
        },
{
    if square.file <= 7 && square.rank <= 7 && board_size > 0 {
        let column: u8 = if reversed { 7 - square.file } else { square.file };
        let row: u8 = if reversed { square.rank } else { 7 - square.rank };
        Some((cell_middle(column, board_size), cell_middle(row, board_size)))
    } else {
        None
    }
}

/// Products of a cell's width, spelled out for the arithmetic of the proofs
/// below.
proof fn lemma_cell_products(cell: int, index: int)
    ensures
        cell * (index + 1) == cell * index + cell,
        index * (2 * cell) == 2 * (cell * index),
{
    assert(cell * (index + 1) == cell * index + cell) by (nonlinear_arith);
    assert(index * (2 * cell) == 2 * (cell * index)) by (nonlinear_arith);
}

/// The middle of a cell lies in that cell, on a board of at least 16 units.
///
/// The middle is rounded down, by less than one unit. From 18 units on, half
/// a cell is wider than that. On boards of 16 and 17 units it is not, and
/// the cells are gone through one by one.
pub proof fn lemma_cell_center_in_cell(index: int, board_size: int)
    requires
        0 <= index <= 7,
        board_size >= 16,
    ensures
        grid_index(cell_center(index, board_size), board_size) == index,
{
    let cell = 111 * board_size;
    let before = cell * index;
    let center = (before + cell) / 1000;
    let numerator = 2000 * center - cell;
    let remainder = numerator - 2 * before;
    lemma_cell_products(cell, index);
    assert(1000 * center <= before + cell < 1000 * center + 1000);
    if board_size == 16 {
        assert(before == 1776 * index) by (nonlinear_arith)
            requires
                before == cell * index,
                cell == 1776,
        ;
        assert(0 <= remainder) by {
            assert(index == 0 || index == 1 || index == 2 || index == 3 || index == 4 || index == 5
                || index == 6 || index == 7);
        }
    } else if board_size == 17 {
        assert(before == 1887 * index) by (nonlinear_arith)
            requires
                before == cell * index,
                cell == 1887,
        ;
        assert(0 <= remainder) by {
            assert(index == 0 || index == 1 || index == 2 || index == 3 || index == 4 || index == 5
                || index == 6 || index == 7);
        }
    }
    assert(0 <= remainder < 2 * cell);
    vstd::arithmetic::div_mod::lemma_fundamental_div_mod_converse(
        numerator,
        2 * cell,
        index,
        remainder,
    );
}

/// The middle of every square of a board of at least 16 units maps back to
/// that square, under either orientation.
pub proof fn lemma_center_round_trip(square: Square, board_size: int, reversed: bool)
    requires
        square.valid(),
        board_size >= 16,
    ensures
        square_at(
            center_of(square, board_size, reversed).0,
            center_of(square, board_size, reversed).1,
            board_size,
            reversed,
        ) == Some(square),
{
    lemma_cell_center_in_cell(column_of_file(square.file as int, reversed), board_size);
    lemma_cell_center_in_cell(row_of_rank(square.rank as int, reversed), board_size);
}

/// Wherever a position on a board of at least 16 units maps to a square, the
/// middle of that square maps to the same square.
pub proof fn lemma_map_then_center(x: int, y: int, board_size: int, reversed: bool)
    requires
        board_size >= 16,
        square_at(x, y, board_size, reversed) is Some,
    ensures
        ({
            let square = square_at(x, y, board_size, reversed)->Some_0;
            let center = center_of(square, board_size, reversed);
            square_at(center.0, center.1, board_size, reversed) == Some(square)
        }),
{
    lemma_center_round_trip(square_at(x, y, board_size, reversed)->Some_0, board_size, reversed);
}

/// Turning the rendered board round turns every square into the one opposite
/// to it: a position is over a square under one orientation exactly where it
/// is over the opposite square under the other.
pub proof fn lemma_orientation_turns_squares(x: int, y: int, board_size: int)
    ensures
        match square_at(x, y, board_size, false) {
            Some(square) => square_at(x, y, board_size, true) == Some(
                Square { file: (7 - square.file) as u8, rank: (7 - square.rank) as u8 },
            ),
            None => square_at(x, y, board_size, true) is None,
        },
{
}

/// Every square that a position maps to lies on the board, and on a board
/// without extent no position maps to a square.
pub proof fn lemma_mapped_squares_are_on_board(x: int, y: int, board_size: int, reversed: bool)
    ensures
        square_at(x, y, board_size, reversed) matches Some(square) ==> square.valid(),
        board_size <= 0 ==> square_at(x, y, board_size, reversed) is None,
{
}

/// A coordinate mirrored through the middle of the board.
pub open spec fn mirrored(coord: int, board_size: int) -> int {
    board_size - coord
}

/// The nearest value that a coordinate can hold.
pub open spec fn nearest_coordinate(value: int) -> int {
    if value < i32::MIN {
        i32::MIN as int
    } else if value > i32::MAX {
        i32::MAX as int
    } else {
        value
    }
}

/// Mirrors a coordinate through the middle of the board; a result that no
/// coordinate can hold becomes the nearest one that can.
pub fn mirror_coordinate(coord: i32, board_size: i32) -> (mirror: i32)
    ensures
        mirror == nearest_coordinate(mirrored(coord as int, board_size as int)),
{
    let wide: i64 = board_size as i64 - coord as i64;
    if wide < i32::MIN as i64 {
        i32::MIN
    } else if wide > i32::MAX as i64 {
        i32::MAX
    } else {
        wide as i32
    }
}

/// Mirroring twice through the middle of the same board gives the
/// coordinate back.
pub proof fn lemma_mirror_twice(coord: int, board_size: int)
    ensures
        mirrored(mirrored(coord, board_size), board_size) == coord,
{
}

} // verus!
