//! The position of a game, kept as the record that leads to it, and the
//! questions that the interaction puts to the rules engine about it.

use vstd::prelude::*;
use vstd::string::*;
use vstd::utf8::is_ascii_chars;
use crate::engine::{
    cell_glyph, counters_have_room, engine_cell, engine_outcome, engine_san, engine_side,
    legal_move_san, outcome_report, side_glyph,
};
use crate::fen::{split_start, start_parts, COUNTER_MAX};
use crate::geometry::Square;
use crate::notation::{get_uci_move_for, lemma_uci_move_is_ascii, uci_move};
use crate::outcome::{outcome_of_report, Outcome};
use crate::pieces::{glyph_meaning, piece_from_glyph, piece_letter, Color, Piece};

verus! {

/// A move that the position it was tried in does not take: the rules do not
/// allow it, or the record of the game has no room for it.
#[derive(Clone, Copy, Debug, PartialEq, Eq, Structural)]
pub struct IllegalMove;

/// The record of a game: the position it started from, as the first four
/// fields of its FEN text and the two counters, and the moves played since,
/// each in UCI notation with a space before it.
pub struct Record {
    pub head: Seq<char>,
    pub clock: u16,
    pub number: u16,
    pub line: Seq<char>,
}

/// The position of a game.
pub struct Position {
    head: String,
    clock: u16,
    number: u16,
    line: String,
}

/// The letter that names a piece in the promotion part of a move.
pub open spec fn promotion_letter(promotion: Option<Piece>) -> Option<char> {
    match promotion {
        Some(piece) => Some(piece_letter(piece)),
        None => None,
    }
}

/// The side that a colour character names, if it names one.
pub open spec fn side_named(c: char) -> Option<Color> {
    if c == 'w' {
        Some(Color::White)
    } else if c == 'b' {
        Some(Color::Black)
    } else {
        None
    }
}

impl Record {
    /// The record of a game of chess before its first move.
    pub open spec fn initial() -> Record {
        Record {
            head: "rnbqkbnr/pppppppp/8/8/8/8/PPPPPPPP/RNBQKBNR w KQkq -"@,
            clock: 0,
            number: 1,
            line: Seq::empty(),
        }
    }

    /// The record of a game that starts from the position that a FEN text
    /// describes, before its first move. The text has to be ASCII, with four
    /// to six fields of which the fifth and the sixth are counters, and the
    /// counters have to leave room for a move.
    pub open spec fn of_text(text: Seq<char>) -> Option<Record> {
        match start_parts(text) {
            Some(parts) => {
                let record = Record {
                    head: parts.head,
                    clock: parts.clock,
                    number: parts.number,
                    line: Seq::empty(),
                };
                if is_ascii_chars(text) && record.fits() {
                    Some(record)
                } else {
                    None
                }
            },
            None => None,
        }
    }

    /// Whether the engine's counters have room for the moves of the record
    /// and for one more.
    pub open spec fn fits(self) -> bool {
        counters_have_room(self.clock, self.number, self.line)
    }

    /// The record after one more move.
    pub open spec fn after(self, uci: Seq<char>) -> Record {
        Record { line: self.line + seq![' '] + uci, ..self }
    }

    /// The piece on a square and its colour, as the engine finds them; `None`
    /// for an empty square and for a square off the board.
    pub open spec fn occupant_at(self, square: Square) -> Option<(Piece, Color)> {
        if square.valid() {
            match cell_glyph(
                self.head,
                self.clock,
                self.number,
                self.line,
                square.file,
                (7 - square.rank) as u8,
            ) {
                Some(c) => glyph_meaning(c),
                None => None,
            }
        } else {
            None
        }
    }

    /// The side to move, as the engine reports it.
    pub open spec fn side_to_move(self) -> Option<Color> {
        match side_glyph(self.head, self.clock, self.number, self.line) {
            Some(c) => side_named(c),
            None => None,
        }
    }

    /// The UCI form of the move between two squares of the board.
    pub open spec fn move_text(origin: Square, target: Square, promotion: Option<Piece>) -> Seq<
        char,
    > {
        uci_move(origin.file, origin.rank, target.file, target.rank, promotion_letter(promotion))
    }

    /// What trying a move gives: the record after it and its notation where
    /// the engine accepts it; `None` where it does not, where a square is off
    /// the board, and where the record after the move would not fit.
    pub open spec fn try_apply(self, origin: Square, target: Square, promotion: Option<Piece>)
        -> Option<(Record, Seq<char>)> {
        let uci = Record::move_text(origin, target, promotion);
        if origin.valid() && target.valid() && self.after(uci).fits() {
            match legal_move_san(self.head, self.clock, self.number, self.line, uci) {
                Some(notation) => Some((self.after(uci), notation)),
                None => None,
            }
        } else {
            None
        }
    }

    /// The outcome of the game, as the engine reports it; `None` while the
    /// game goes on.
    pub open spec fn outcome(self) -> Option<Outcome> {
        match outcome_report(self.head, self.clock, self.number, self.line) {
            Some((winner, text)) => Some(outcome_of_report(winner, text)),
            None => None,
        }
    }
}

impl View for Position {
    type V = Record;

    closed spec fn view(&self) -> Record {
        Record { head: self.head@, clock: self.clock, number: self.number, line: self.line@ }
    }
}

impl Position {
    #[verifier::type_invariant]
    spec fn well_formed(self) -> bool {
        is_ascii_chars(self.line@) && counters_have_room(self.clock, self.number, self.line@)
    }

    /// The position that a game of chess starts from.
    pub fn initial() -> (position: Position)
        ensures
            position@ == Record::initial(),
    {
        Position {
            head: String::from_str("rnbqkbnr/pppppppp/8/8/8/8/PPPPPPPP/RNBQKBNR w KQkq -"),
            clock: 0,
            number: 1,
            line: String::new(),
        }
    }

    /// The position that a FEN text describes, where the text can be taken
    /// apart, its counters leave room for a move, and the engine accepts it.
    pub fn from_fen(fen: &str) -> (position: Option<Position>)
        ensures
            match position {
                Some(p) => Record::of_text(fen@) == Some(p@) && p@.side_to_move() is Some,
                None => match Record::of_text(fen@) {
                    Some(record) => record.side_to_move() is None,
                    None => true,
                },
            },
    {
        let (head_end, clock, number) = match split_start(fen) {
            Some(parts) => parts,
            None => {
                return None;
            },
        };
        if clock >= COUNTER_MAX || number >= COUNTER_MAX {
            return None;
        }
        let head = fen.substring_ascii(0, head_end);
        let line = String::new();
        match engine_side(head, clock, number, line.as_str()) {
            Some(c) => {
                if c == 'w' || c == 'b' {
                    Some(Position { head: String::from_str(head), clock, number, line })
                } else {
                    None
                }
            },
            None => None,
        }
    }

    /// The piece on a square, and its colour.
    pub fn occupant_at(&self, square: Square) -> (occupant: Option<(Piece, Color)>)
        ensures
            occupant == self@.occupant_at(square),
    {
        proof {
            use_type_invariant(self);
        }
        if square.file <= 7 && square.rank <= 7 {
            match engine_cell(
                self.head.as_str(),
                self.clock,
                self.number,
                self.line.as_str(),
                square.file,
                7 - square.rank,
            ) {
                Some(c) => piece_from_glyph(c),
                None => None,
            }
        } else {
            None
        }
    }

    /// The side to move.
    pub fn side_to_move(&self) -> (side: Option<Color>)
        ensures
            side == self@.side_to_move(),
    {
        proof {
            use_type_invariant(self);
        }
        match engine_side(self.head.as_str(), self.clock, self.number, self.line.as_str()) {
            Some(c) => {
                if c == 'w' {
                    Some(Color::White)
                } else if c == 'b' {
                    Some(Color::Black)
                } else {
                    None
                }
            },
            None => None,
        }
    }

    /// Tries the move from one square to another, with the piece promoted
    /// to, if any. Where the rules allow the move and the record has room
    /// for it, gives the position after it and the move's notation.
    pub fn try_apply(&self, origin: Square, target: Square, promotion: Option<Piece>) -> (applied:
        Result<(Position, String), IllegalMove>)
        ensures
            match applied {
                Ok((next, notation)) => self@.try_apply(origin, target, promotion) == Some(
                    (next@, notation@),
                ),
                Err(_) => self@.try_apply(origin, target, promotion) is None,
            },
    {
        proof {
            use_type_invariant(self);
        }
        if !(origin.file <= 7 && origin.rank <= 7 && target.file <= 7 && target.rank <= 7) {
            return Err(IllegalMove);
        }
        let letter: Option<char> = match promotion {
            Some(piece) => Some(letter_of(piece)),
            None => None,
        };
        let uci = get_uci_move_for(origin.file, origin.rank, target.file, target.rank, letter);
        proof {
            lemma_uci_move_is_ascii(origin.file, origin.rank, target.file, target.rank, letter);
        }
        let played: usize = self.line.as_str().unicode_len();
        let grown: usize = played + 1 + uci.as_str().unicode_len();
        let limit: usize = 65535;
        if self.clock as usize + grown >= limit || self.number as usize + grown >= limit {
            return Err(IllegalMove);
        }
        match engine_san(
            self.head.as_str(),
            self.clock,
            self.number,
            self.line.as_str(),
            uci.as_str(),
        ) {
            Some(notation) => {
                let mut line = self.line.clone();
                line.append(" ");
                line.append(uci.as_str());
                proof {
                    reveal_strlit(" ");
                    assert(" "@ =~= seq![' ']);
                    assert(is_ascii_chars(" "@));
                    vstd::utf8::is_ascii_chars_concat(self.line@ + " "@, self.line@, " "@);
                    vstd::utf8::is_ascii_chars_concat(line@, self.line@ + " "@, uci@);
                }
                let next = Position {
                    head: self.head.clone(),
                    clock: self.clock,
                    number: self.number,
                    line,
                };
                Ok((next, notation))
            },
            None => Err(IllegalMove),
        }
    }

    /// The outcome of the game, or `None` while it goes on.
    pub fn outcome(&self) -> (outcome: Option<Outcome>)
        ensures
            outcome == self@.outcome(),
    {
        proof {
            use_type_invariant(self);
        }
        match engine_outcome(self.head.as_str(), self.clock, self.number, self.line.as_str()) {
            Some((winner, text)) => Some(Outcome::from_report(winner, text.as_str())),
            None => None,
        }
    }
}

/// Lower-case letter of a piece kind.
fn letter_of(piece: Piece) -> (c: char)
    ensures
        c == piece_letter(piece),
{
    match piece {
        Piece::Pawn => 'p',
        Piece::Knight => 'n',
        Piece::Bishop => 'b',
        Piece::Rook => 'r',
        Piece::Queen => 'q',
        Piece::King => 'k',
    }
}

} // verus!
