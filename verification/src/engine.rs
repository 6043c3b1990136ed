//! The chess rules engine, reached through the record of a game.
//!
//! A game is recorded as the position it started from and the moves played
//! since. The starting position is the first four fields of its FEN text
//! (the placement, the side to move, the castling rights and the en passant
//! square) and the two counters that follow them in FEN; the moves are text,
//! each move in UCI notation and separated by spaces. Every question put to
//! the engine is a question about such a record, and its answer depends on
//! the record alone. The answers are computed by the `owlchess` crate; what
//! is claimed of them here is trusted, not proved.
//!
//! The engine keeps the two counters in 16 bits and adds one to each of them
//! at most once for every move that it makes. So a record is put to the
//! engine only while the counters have room for all its moves and one more.

use vstd::prelude::*;
use vstd::utf8::is_ascii_chars;
use crate::fen::COUNTER_MAX;

verus! {

/// Whether the engine's counters, starting from the given values, have room
/// for every move of a line and for one move more. A move takes four
/// characters of the line at least, so the line has fewer moves than
/// characters.
pub open spec fn counters_have_room(clock: u16, number: u16, line: Seq<char>) -> bool {
    clock + line.len() < COUNTER_MAX && number + line.len() < COUNTER_MAX
}

/// What `owlchess::Board::get2` finds on a cell of the position that a record
/// leads to, as the character that `owlchess::Cell::as_char` gives for it
/// (`'.'` for an empty cell). `row` counts from the eighth rank down.
/// `None` where the record does not describe a game.
pub uninterp spec fn cell_glyph(
    head: Seq<char>,
    clock: u16,
    number: u16,
    line: Seq<char>,
    file: u8,
    row: u8,
) -> Option<char>;

/// The side that `owlchess::Board::side` reports to be on move in the
/// position that a record leads to, as the character that
/// `owlchess::Color::as_char` gives for it. `None` where the record does not
/// describe a game.
pub uninterp spec fn side_glyph(head: Seq<char>, clock: u16, number: u16, line: Seq<char>)
    -> Option<char>;

/// The text that `owlchess::Move::san` gives for a move, written in UCI
/// notation, that `owlchess::Move::from_uci_legal` accepts in the position
/// that a record leads to. `None` where the move is not accepted or the record
/// does not describe a game.
pub uninterp spec fn legal_move_san(
    head: Seq<char>,
    clock: u16,
    number: u16,
    line: Seq<char>,
    uci: Seq<char>,
) -> Option<Seq<char>>;

/// What `owlchess::MoveChain::calc_outcome` finds for a record: `None` while
/// the game goes on or where the record does not describe a game, else the
/// winner that `owlchess::Outcome::winner` names, as a colour character, and
/// the outcome as its `Display` text.
pub uninterp spec fn outcome_report(head: Seq<char>, clock: u16, number: u16, line: Seq<char>)
    -> Option<(Option<char>, Seq<char>)>;

/// View of an optional string.
pub open spec fn text_view(text: Option<String>) -> Option<Seq<char>> {
    match text {
        Some(s) => Some(s@),
        None => None,
    }
}

/// View of an outcome report.
pub open spec fn report_view(report: Option<(Option<char>, String)>) -> Option<
    (Option<char>, Seq<char>),
> {
    match report {
        Some((winner, text)) => Some((winner, text@)),
        None => None,
    }
}

/// Calls `owlchess::Board::get2` on the last position of the chain that
/// `owlchess::MoveChain::from_uci_list` builds from the record, and gives the
/// cell found as a character. Claims that the answer is a function of the
/// record and the cell's coordinates.
///
/// The starting position is put to `owlchess::Board::from_fen` as the head,
/// a space, the clock, a space and the number. The engine reads its counters
/// from the fifth and the sixth field of that text and takes no seventh, so
/// it either reads the two numbers given here or refuses the text. The moves
/// have to be ASCII text, because the engine cuts each move at fixed byte
/// offsets; the counters have to have room for the moves, because the engine
/// adds to them without a check; and the coordinates have to be less than 8,
/// because the engine refuses any other.
#[verifier::external_body]
pub(crate) fn engine_cell(head: &str, clock: u16, number: u16, line: &str, file: u8, row: u8) -> (found:
    Option<char>)
    requires
        is_ascii_chars(line@),
        counters_have_room(clock, number, line@),
        file < 8,
        row < 8,
    ensures
        found == cell_glyph(head@, clock, number, line@, file, row),
{
    let fen = format!("{} {} {}", head, clock, number);
    let board = owlchess::Board::from_fen(&fen).ok()?;
    let chain = owlchess::MoveChain::from_uci_list(board, line).ok()?;
    let file = owlchess::File::from_index(file as usize);
    let rank = owlchess::Rank::from_index(row as usize);
    Some(chain.last().get2(file, rank).as_char())
}

/// Calls `owlchess::Board::side` on the last position of the chain built from
/// the record, as [`engine_cell`] builds it. Claims that the answer is a
/// function of the record. The moves have to be ASCII text, and the counters
/// have to have room for them.
#[verifier::external_body]
pub(crate) fn engine_side(head: &str, clock: u16, number: u16, line: &str) -> (side: Option<char>)
    requires
        is_ascii_chars(line@),
        counters_have_room(clock, number, line@),
    ensures
        side == side_glyph(head@, clock, number, line@),
{
    let fen = format!("{} {} {}", head, clock, number);
    let board = owlchess::Board::from_fen(&fen).ok()?;
    let chain = owlchess::MoveChain::from_uci_list(board, line).ok()?;
    Some(chain.last().side().as_char())
}

/// Calls `owlchess::Move::from_uci_legal` on the last position of the chain
/// built from the record, as [`engine_cell`] builds it, and
/// `owlchess::Move::san` on the move it accepts. Claims that the answer is a
/// function of the record and the move's text.
///
/// The moves of the record and the move tried have to be ASCII text. The
/// engine makes the move tried on a copy of the position to see whether it
/// gives check, so the counters have to have room for the moves of the record
/// and for this one.
#[verifier::external_body]
pub(crate) fn engine_san(head: &str, clock: u16, number: u16, line: &str, uci: &str) -> (san:
    Option<String>)
    requires
        is_ascii_chars(line@),
        is_ascii_chars(uci@),
        counters_have_room(clock, number, line@),
    ensures
        text_view(san) == legal_move_san(head@, clock, number, line@, uci@),
{
    let fen = format!("{} {} {}", head, clock, number);
    let board = owlchess::Board::from_fen(&fen).ok()?;
    let chain = owlchess::MoveChain::from_uci_list(board, line).ok()?;
    let mv = owlchess::Move::from_uci_legal(uci, chain.last()).ok()?;
    Some(mv.san(chain.last()).ok()?.to_string())
}

/// Calls `owlchess::MoveChain::calc_outcome` on the chain built from the
/// record, as [`engine_cell`] builds it, and gives the winner by
/// `owlchess::Outcome::winner` and the outcome's `Display` text. Claims that
/// the answer is a function of the record. The moves have to be ASCII text,
/// and the counters have to have room for them.
#[verifier::external_body]
pub(crate) fn engine_outcome(head: &str, clock: u16, number: u16, line: &str) -> (report: Option<
    (Option<char>, String),
>)
    requires
        is_ascii_chars(line@),
        counters_have_room(clock, number, line@),
    ensures
        report_view(report) == outcome_report(head@, clock, number, line@),
{
    let fen = format!("{} {} {}", head, clock, number);
    let board = owlchess::Board::from_fen(&fen).ok()?;
    let chain = owlchess::MoveChain::from_uci_list(board, line).ok()?;
    let outcome = chain.calc_outcome()?;
    Some((outcome.winner().map(|side| side.as_char()), outcome.to_string()))
}

} // verus!
