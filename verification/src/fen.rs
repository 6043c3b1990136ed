//! The text of a starting position, taken apart: the fields that describe
//! the board, and the two counters after them.
//!
//! A position is written in FEN as fields with one space between them: the
//! placement of the pieces, the side to move, the castling rights, the en
//! passant square, and then, optionally, the number of half-moves since a
//! pawn moved or a piece was taken and the number of the move. A counter that
//! is left out counts as 0 and 1.

use vstd::prelude::*;
use vstd::string::*;
use vstd::utf8::is_ascii_chars;

verus! {

/// The largest value that a counter of the engine can hold.
pub const COUNTER_MAX: u16 = 65535;

/// Where the field that holds the place `from` ends: the place of the first
/// space at or after `from`, or the end of the text.
pub open spec fn field_end(text: Seq<char>, from: int) -> int
    decreases text.len() - from,
{
    if 0 <= from < text.len() && text[from] != ' ' {
        field_end(text, from + 1)
    } else {
        from
    }
}

/// Where the field of the given index starts, if the text has that many
/// fields. The first field has index 0 and starts at the start of the text;
/// every space ends a field and starts the next.
pub open spec fn field_start(text: Seq<char>, index: nat) -> Option<int>
    decreases index,
{
    if index == 0 {
        Some(0)
    } else {
        match field_start(text, (index - 1) as nat) {
            Some(from) => if field_end(text, from) < text.len() {
                Some(field_end(text, from) + 1)
            } else {
                None
            },
            None => None,
        }
    }
}

/// The field of the given index, if the text has that many fields.
pub open spec fn field(text: Seq<char>, index: nat) -> Option<Seq<char>> {
    match field_start(text, index) {
        Some(from) => Some(text.subrange(from, field_end(text, from))),
        None => None,
    }
}

/// Whether a character is a decimal digit.
pub open spec fn is_digit(c: char) -> bool {
    '0' <= c <= '9'
}

/// Whether a text is made of decimal digits and nothing else.
pub open spec fn is_digits(text: Seq<char>) -> bool {
    forall|i: int| 0 <= i < text.len() ==> is_digit(#[trigger] text[i])
}

/// The number that decimal digits write.
pub open spec fn decimal(digits: Seq<char>) -> nat
    decreases digits.len(),
{
    if digits.len() == 0 {
        0
    } else {
        (10 * decimal(digits.drop_last()) + (digits.last() as int - '0' as int)) as nat
    }
}

/// The value of a counter written as text: one to five digits that write a
/// number that the engine's counters can hold.
pub open spec fn counter_value(text: Seq<char>) -> Option<u16> {
    if 1 <= text.len() <= 5 && is_digits(text) && decimal(text) <= COUNTER_MAX {
        Some(decimal(text) as u16)
    } else {
        None
    }
}

/// The value of a counter that may be left out.
pub open spec fn counter_or(text: Option<Seq<char>>, default: u16) -> Option<u16> {
    match text {
        Some(digits) => counter_value(digits),
        None => Some(default),
    }
}

/// A starting position taken apart.
pub struct StartParts {
    /// The first four fields, with the spaces between them.
    pub head: Seq<char>,
    /// The number of half-moves since a pawn moved or a piece was taken.
    pub clock: u16,
    /// The number of the move.
    pub number: u16,
}

/// Takes the text of a starting position apart. The text has to have four to
/// six fields, and the fifth and the sixth have to be counters.
pub open spec fn start_parts(text: Seq<char>) -> Option<StartParts> {
    match (
        field_start(text, 3),
        field_start(text, 6),
        counter_or(field(text, 4), 0),
        counter_or(field(text, 5), 1),
    ) {
        (Some(from), None, Some(clock), Some(number)) => Some(
            StartParts { head: text.subrange(0, field_end(text, from)), clock, number },
        ),
        _ => None,
    }
}

/// Whether the character at a place of an ASCII text is the given one.
fn is_at(text: &str, place: usize, c: u8) -> (same: bool)
    requires
        is_ascii_chars(text@),
        place < text@.len(),
        c < 128,
    ensures
        same == (text@[place as int] as int == c as int),
{
    text.get_ascii(place) == c
}

/// Finds where the field that holds the place `from` ends.
fn find_field_end(text: &str, from: usize, length: usize) -> (end: usize)
    requires
        is_ascii_chars(text@),
        length == text@.len(),
        from <= length,
    ensures
        end == field_end(text@, from as int),
        from <= end <= length,
{
    let mut end: usize = from;
    loop
        invariant
            is_ascii_chars(text@),
            length == text@.len(),
            from <= end <= length,
            field_end(text@, from as int) == field_end(text@, end as int),
        ensures
            end >= length || text@[end as int] == ' ',
        decreases length - end,
    {
        if end >= length {
            break;
        }
        if is_at(text, end, 32) {
            break;
        }
        end += 1;
    }
    end
}

/// Reads the counter that stands between two places of a text.
fn read_counter(text: &str, from: usize, end: usize) -> (value: Option<u16>)
    requires
        is_ascii_chars(text@),
        from <= end <= text@.len(),
    ensures
        value == counter_value(text@.subrange(from as int, end as int)),
{
    let ghost digits = text@.subrange(from as int, end as int);
    if end - from < 1 || end - from > 5 {
        return None;
    }
    let mut value: u32 = 0;
    let mut place: usize = from;
    while place < end
        invariant
            is_ascii_chars(text@),
            from <= place <= end <= text@.len(),
            end - from <= 5,
            digits == text@.subrange(from as int, end as int),
            is_digits(text@.subrange(from as int, place as int)),
            value == decimal(text@.subrange(from as int, place as int)),
            place - from <= 0 ==> value == 0,
            place - from <= 1 ==> value <= 9,
            place - from <= 2 ==> value <= 99,
            place - from <= 3 ==> value <= 999,
            place - from <= 4 ==> value <= 9999,
            value <= 99999,
        decreases end - place,
    {
        let byte: u8 = text.get_ascii(place);
        let ghost before = text@.subrange(from as int, place as int);
        let ghost grown = text@.subrange(from as int, place + 1);
        assert(grown.drop_last() =~= before);
        assert(grown.last() == text@[place as int]);
        assert(digits[place - from] == text@[place as int]);
        if byte < 48 || byte > 57 {
            assert(!is_digit(text@[place as int]));
            return None;
        }
        assert(is_digit(text@[place as int]));
        assert(is_digits(grown)) by {
            assert forall|i: int| 0 <= i < grown.len() implies is_digit(#[trigger] grown[i]) by {
                if i < before.len() {
                    assert(grown[i] == before[i]);
                }
            }
        }
        value = value * 10 + (byte - 48) as u32;
        place += 1;
    }
    assert(text@.subrange(from as int, place as int) =~= digits);
    if value > 65535 {
        None
    } else {
        Some(value as u16)
    }
}

/// Takes the text of a starting position apart: where the first four fields
/// end, and the two counters. Gives nothing for a text that is not ASCII.
pub fn split_start(text: &str) -> (parts: Option<(usize, u16, u16)>)
    ensures
        match parts {
            Some((head_end, clock, number)) => is_ascii_chars(text@) && head_end <= text@.len()
                && start_parts(text@) == Some(
                StartParts { head: text@.subrange(0, head_end as int), clock, number },
            ),
            None => !is_ascii_chars(text@) || start_parts(text@) is None,
        },
{
    if !text.is_ascii() {
        return None;
    }
    let length: usize = text.unicode_len();
    let mut from: usize = 0;
    let mut index: usize = 0;
    while index < 3
        invariant
            is_ascii_chars(text@),
            length == text@.len(),
            0 <= index <= 3,
            from <= length,
            field_start(text@, index as nat) == Some(from as int),
        decreases 3 - index,
    {
        let end: usize = find_field_end(text, from, length);
        if end >= length {
            assert(field_start(text@, (index + 1) as nat) is None);
            assert(field_start(text@, 3) is None) by {
                if index + 1 < 3 {
                    assert(field_start(text@, (index + 2) as nat) is None);
                }
            }
            return None;
        }
        from = end + 1;
        index += 1;
    }
    let head_end: usize = find_field_end(text, from, length);
    if head_end >= length {
        assert(field_start(text@, 4) is None);
        assert(field_start(text@, 5) is None);
        assert(field_start(text@, 6) is None);
        return Some((head_end, 0, 1));
    }
    let clock_from: usize = head_end + 1;
    let clock_end: usize = find_field_end(text, clock_from, length);
    assert(field_start(text@, 4) == Some(clock_from as int));
    let clock: u16 = match read_counter(text, clock_from, clock_end) {
        Some(clock) => clock,
        None => {
            return None;
        },
    };
    if clock_end >= length {
        assert(field_start(text@, 5) is None);
        assert(field_start(text@, 6) is None);
        return Some((head_end, clock, 1));
    }
    let number_from: usize = clock_end + 1;
    let number_end: usize = find_field_end(text, number_from, length);
    assert(field_start(text@, 5) == Some(number_from as int));
    let number: u16 = match read_counter(text, number_from, number_end) {
        Some(number) => number,
        None => {
            return None;
        },
    };
    if number_end < length {
        assert(field_start(text@, 6) == Some(number_end + 1));
        return None;
    }
    assert(field_start(text@, 6) is None);
    Some((head_end, clock, number))
}

} // verus!
