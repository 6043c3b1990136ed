//! How a game ended, and how the engine's report of it is read.

use vstd::prelude::*;
use vstd::string::*;
use crate::pieces::Color;

verus! {

/// Why a game was won.
#[derive(Clone, Copy, Debug, PartialEq, Eq, Structural)]
pub enum WinReason {
    Checkmate,
    Other,
}

/// Why a game was drawn.
#[derive(Clone, Copy, Debug, PartialEq, Eq, Structural)]
pub enum DrawReason {
    InsufficientMaterial,
    Stalemate,
    Moves50,
    Moves75,
    Repeat3,
    Repeat5,
    Other,
}

/// Outcome of a finished game.
#[derive(Clone, Copy, Debug, PartialEq, Eq, Structural)]
pub enum Outcome {
    Win { side: Color, reason: WinReason },
    Draw(DrawReason),
}

/// The side that a colour character names: `'w'` is white, anything else
/// black.
pub open spec fn side_of_char(c: char) -> Color {
    if c == 'w' {
        Color::White
    } else {
        Color::Black
    }
}

/// The reason that the text of a won game gives.
pub open spec fn win_reason_of_text(text: Seq<char>) -> WinReason {
    if text == "white checkmates"@ || text == "black checkmates"@ {
        WinReason::Checkmate
    } else {
        WinReason::Other
    }
}

/// The reason that the text of a drawn game gives.
pub open spec fn draw_reason_of_text(text: Seq<char>) -> DrawReason {
    if text == "insufficient material"@ {
        DrawReason::InsufficientMaterial
    } else if text == "stalemate"@ {
        DrawReason::Stalemate
    } else if text == "50 move rule"@ {
        DrawReason::Moves50
    } else if text == "75 move rule"@ {
        DrawReason::Moves75
    } else if text == "threefold repetition"@ {
        DrawReason::Repeat3
    } else if text == "fivefold repetition"@ {
        DrawReason::Repeat5
    } else {
        DrawReason::Other
    }
}

/// The outcome that a report stands for: a win of the side named, or a draw
/// where no side is named, for the reason that the text gives.
pub open spec fn outcome_of_report(winner: Option<char>, text: Seq<char>) -> Outcome {
    match winner {
        Some(c) => Outcome::Win { side: side_of_char(c), reason: win_reason_of_text(text) },
        None => Outcome::Draw(draw_reason_of_text(text)),
    }
}

/// Whether a text is the given literal.
fn same_text(text: &str, literal: &str) -> (same: bool)
    ensures
        same == (text@ == literal@),
{
    let left = String::from_str(text);
    let right = String::from_str(literal);
    left == right
}

impl Outcome {
    /// Reads the engine's report of a finished game.
    pub fn from_report(winner: Option<char>, text: &str) -> (outcome: Outcome)
        ensures
            outcome == outcome_of_report(winner, text@),
    {
        match winner {
            Some(c) => {
                let side = if c == 'w' { Color::White } else { Color::Black };
                let reason = if same_text(text, "white checkmates") || same_text(
                    text,
                    "black checkmates",
                ) {
                    WinReason::Checkmate
                } else {
                    WinReason::Other
                };
                Outcome::Win { side, reason }
            },
            None => {
                let reason = if same_text(text, "insufficient material") {
                    DrawReason::InsufficientMaterial
                } else if same_text(text, "stalemate") {
                    DrawReason::Stalemate
                } else if same_text(text, "50 move rule") {
                    DrawReason::Moves50
                } else if same_text(text, "75 move rule") {
                    DrawReason::Moves75
                } else if same_text(text, "threefold repetition") {
                    DrawReason::Repeat3
                } else if same_text(text, "fivefold repetition") {
                    DrawReason::Repeat5
                } else {
                    DrawReason::Other
                };
                Outcome::Draw(reason)
            },
        }
    }

    /// The side that won, if a side did.
    pub fn winner(&self) -> (side: Option<Color>)
        ensures
            side == match *self {
                Outcome::Win { side, .. } => Some(side),
                Outcome::Draw(_) => None,
            },
    {
        match self {
            Outcome::Win { side, .. } => Some(*side),
            Outcome::Draw(_) => None,
        }
    }
}

} // verus!
