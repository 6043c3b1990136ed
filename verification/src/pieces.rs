//! Piece kinds, colours, and the single-character glyphs that stand for them
//! at the notation and rendering boundary.

use vstd::prelude::*;

verus! {

/// Side of a chess game.
#[derive(Clone, Copy, Debug, PartialEq, Eq, Structural)]
pub enum Color {
    White,
    Black,
}

/// Kind of a chess piece, without regard to its colour.
#[derive(Clone, Copy, Debug, PartialEq, Eq, Structural)]
pub enum Piece {
    Pawn,
    Knight,
    Bishop,
    Rook,
    Queen,
    King,
}

impl Color {
    /// The other side.
    pub open spec fn spec_opposite(self) -> Color {
        match self {
            Color::White => Color::Black,
            Color::Black => Color::White,
        }
    }

    /// The other side.
    pub fn opposite(self) -> (other: Color)
        ensures
            other == self.spec_opposite(),
    {
        match self {
            Color::White => Color::Black,
            Color::Black => Color::White,
        }
    }

    /// Whether this is the white side.
    pub fn is_white(self) -> (white: bool)
        ensures
            white == (self == Color::White),
    {
        match self {
            Color::White => true,
            Color::Black => false,
        }
    }
}

/// Lower-case letter of a piece kind.
pub open spec fn piece_letter(piece: Piece) -> char {
    match piece {
        Piece::Pawn => 'p',
        Piece::Knight => 'n',
        Piece::Bishop => 'b',
        Piece::Rook => 'r',
        Piece::Queen => 'q',
        Piece::King => 'k',
    }
}

/// Upper-case form of a piece letter.
pub open spec fn capital(letter: char) -> char {
    if letter == 'p' {
        'P'
    } else if letter == 'n' {
        'N'
    } else if letter == 'b' {
        'B'
    } else if letter == 'r' {
        'R'
    } else if letter == 'q' {
        'Q'
    } else if letter == 'k' {
        'K'
    } else {
        letter
    }
}

/// Glyph of a piece: its letter, upper case for white and lower case for black.
pub open spec fn glyph(piece: Piece, color: Color) -> char {
    match color {
        Color::White => capital(piece_letter(piece)),
        Color::Black => piece_letter(piece),
    }
}

/// The piece and colour that a glyph stands for, if it stands for any.
pub open spec fn glyph_meaning(c: char) -> Option<(Piece, Color)> {
    if c == 'P' {
        Some((Piece::Pawn, Color::White))
    } else if c == 'N' {
        Some((Piece::Knight, Color::White))
    } else if c == 'B' {
        Some((Piece::Bishop, Color::White))
    } else if c == 'R' {
        Some((Piece::Rook, Color::White))
    } else if c == 'Q' {
        Some((Piece::Queen, Color::White))
    } else if c == 'K' {
        Some((Piece::King, Color::White))
    } else if c == 'p' {
        Some((Piece::Pawn, Color::Black))
    } else if c == 'n' {
        Some((Piece::Knight, Color::Black))
    } else if c == 'b' {
        Some((Piece::Bishop, Color::Black))
    } else if c == 'r' {
        Some((Piece::Rook, Color::Black))
    } else if c == 'q' {
        Some((Piece::Queen, Color::Black))
    } else if c == 'k' {
        Some((Piece::King, Color::Black))
    } else {
        None
    }
}

/// Glyph of the given piece of the given colour.
pub fn get_piece_type_from(piece: Piece, color: Color) -> (c: char)
    ensures
        c == glyph(piece, color),
{
    match piece {
        Piece::Pawn => match color {
            Color::White => 'P',
            Color::Black => 'p',
        },
        Piece::Knight => match color {
            Color::White => 'N',
            Color::Black => 'n',
        },
        Piece::Bishop => match color {
            Color::White => 'B',
            Color::Black => 'b',
        },
        Piece::Rook => match color {
            Color::White => 'R',
            Color::Black => 'r',
        },
        Piece::Queen => match color {
            Color::White => 'Q',
            Color::Black => 'q',
        },
        Piece::King => match color {
            Color::White => 'K',
            Color::Black => 'k',
        },
    }
}

/// Reads a glyph back into the piece and colour it stands for; any other
/// character stands for nothing.
pub fn piece_from_glyph(c: char) -> (meaning: Option<(Piece, Color)>)
    ensures
        meaning == glyph_meaning(c),
{
    match c {
        'P' => Some((Piece::Pawn, Color::White)),
        'N' => Some((Piece::Knight, Color::White)),
        'B' => Some((Piece::Bishop, Color::White)),
        'R' => Some((Piece::Rook, Color::White)),
        'Q' => Some((Piece::Queen, Color::White)),
        'K' => Some((Piece::King, Color::White)),
        'p' => Some((Piece::Pawn, Color::Black)),
        'n' => Some((Piece::Knight, Color::Black)),
        'b' => Some((Piece::Bishop, Color::Black)),
        'r' => Some((Piece::Rook, Color::Black)),
        'q' => Some((Piece::Queen, Color::Black)),
        'k' => Some((Piece::King, Color::Black)),
        _ => None,
    }
}

/// A glyph reads back as the piece and colour it was made from.
pub proof fn lemma_glyph_round_trip(piece: Piece, color: Color)
    ensures
        glyph_meaning(glyph(piece, color)) == Some((piece, color)),
{
}

/// Whatever a character stands for has that character as its glyph.
pub proof fn lemma_meaning_round_trip(c: char)
    ensures
        glyph_meaning(c) matches Some((piece, color)) ==> glyph(piece, color) == c,
{
}

} // verus!
