//! Move notation: squares in algebraic form, moves in UCI form, and the
//! figurine form of a move written in standard algebraic notation.

use vstd::prelude::*;
use vstd::string::*;
use vstd::utf8::is_ascii_chars;
use crate::text::push_char;

verus! {

/// Letters of the files, from the a-file on.
pub open spec fn file_letters() -> Seq<char> {
    seq!['a', 'b', 'c', 'd', 'e', 'f', 'g', 'h']
}

/// Digits of the ranks, from the first rank on.
pub open spec fn rank_digits() -> Seq<char> {
    seq!['1', '2', '3', '4', '5', '6', '7', '8']
}

/// A square in algebraic form: the file's letter, then the rank's digit.
pub open spec fn algebraic(file: u8, rank: u8) -> Seq<char>
    recommends
        file <= 7,
        rank <= 7,
{
    seq![file_letters()[file as int], rank_digits()[rank as int]]
}

/// Whether a character names a piece that a pawn can be promoted to.
pub open spec fn is_promotion_letter(c: char) -> bool {
    c == 'q' || c == 'r' || c == 'b' || c == 'n'
}

/// The promotion part of a move in UCI form: the letter of the piece chosen,
/// or nothing where no piece was chosen or the letter names none.
pub open spec fn promotion_suffix(piece: Option<char>) -> Seq<char> {
    match piece {
        Some(c) => if is_promotion_letter(c) {
            seq![c]
        } else {
            Seq::empty()
        },
        None => Seq::empty(),
    }
}

/// A move in UCI form: the square left, the square reached, and the
/// promotion part.
pub open spec fn uci_move(
    start_file: u8,
    start_rank: u8,
    end_file: u8,
    end_rank: u8,
    promotion: Option<char>,
) -> Seq<char>
    recommends
        start_file <= 7,
        start_rank <= 7,
        end_file <= 7,
        end_rank <= 7,
{
    algebraic(start_file, start_rank) + algebraic(end_file, end_rank) + promotion_suffix(promotion)
}

/// Appends a square in algebraic form to a text.
fn push_algebraic(text: &mut String, file: u8, rank: u8)
    requires
        file <= 7,
        rank <= 7,
    ensures
        final(text)@ == old(text)@ + algebraic(file, rank),
{
    let letter: char = match file {
        0 => 'a',
        1 => 'b',
        2 => 'c',
        3 => 'd',
        4 => 'e',
        5 => 'f',
        6 => 'g',
        _ => 'h',
    };
    let digit: char = match rank {
        0 => '1',
        1 => '2',
        2 => '3',
        3 => '4',
        4 => '5',
        5 => '6',
        6 => '7',
        _ => '8',
    };
    push_char(text, letter);
    push_char(text, digit);
    assert(text@ =~= old(text)@ + algebraic(file, rank));
}

/// The algebraic form of the square with the given file and rank.
pub fn square_coords_to_algebraic(file: u8, rank: u8) -> (text: String)
    requires
        file <= 7,
        rank <= 7,
    ensures
        text@ == algebraic(file, rank),
{
    let mut text = String::new();
    push_algebraic(&mut text, file, rank);
    assert(text@ =~= algebraic(file, rank));
    text
}

/// The promotion part of a move in UCI form.
pub fn promotion_as_algebraic(piece: Option<char>) -> (text: String)
    ensures
        text@ == promotion_suffix(piece),
{
    let mut text = String::new();
    match piece {
        Some(c) => {
            if c == 'q' || c == 'r' || c == 'b' || c == 'n' {
                push_char(&mut text, c);
                assert(text@ =~= seq![c]);
            }
        },
        None => {},
    }
    text
}

/// The UCI form of the move from one square to another, with the letter of
/// the piece promoted to, if any.
pub fn get_uci_move_for(
    start_file: u8,
    start_rank: u8,
    end_file: u8,
    end_rank: u8,
    promotion: Option<char>,
) -> (text: String)
    requires
        start_file <= 7,
        start_rank <= 7,
        end_file <= 7,
        end_rank <= 7,
    ensures
        text@ == uci_move(start_file, start_rank, end_file, end_rank, promotion),
        is_ascii_chars(text@),
{
    let mut text = String::new();
    push_algebraic(&mut text, start_file, start_rank);
    push_algebraic(&mut text, end_file, end_rank);
    let suffix = promotion_as_algebraic(promotion);
    text.append(suffix.as_str());
    proof {
        assert(text@ =~= uci_move(start_file, start_rank, end_file, end_rank, promotion));
        lemma_uci_move_is_ascii(start_file, start_rank, end_file, end_rank, promotion);
    }
    text
}

/// A move in UCI form is four or five ASCII characters.
pub proof fn lemma_uci_move_is_ascii(
    start_file: u8,
    start_rank: u8,
    end_file: u8,
    end_rank: u8,
    promotion: Option<char>,
)
    requires
        start_file <= 7,
        start_rank <= 7,
        end_file <= 7,
        end_rank <= 7,
    ensures
        is_ascii_chars(uci_move(start_file, start_rank, end_file, end_rank, promotion)),
        4 <= uci_move(start_file, start_rank, end_file, end_rank, promotion).len() <= 5,
{
    let text = uci_move(start_file, start_rank, end_file, end_rank, promotion);
    let from = algebraic(start_file, start_rank);
    let to = algebraic(end_file, end_rank);
    let suffix = promotion_suffix(promotion);
    assert(from.len() == 2 && to.len() == 2 && suffix.len() <= 1);
    assert forall|i: int| 0 <= i < text.len() implies '\0' <= #[trigger] text[i] <= '\u{7f}' by {
        if i < 2 {
            assert(text[i] == from[i]);
        } else if i < 4 {
            assert(text[i] == to[i - 2]);
        } else {
            assert(text[i] == suffix[i - 4]);
        }
    }
}

/// Whether a character is the letter of a piece in standard algebraic
/// notation.
pub open spec fn is_piece_letter(c: char) -> bool {
    c == 'N' || c == 'B' || c == 'R' || c == 'Q' || c == 'K'
}

/// The figurine of a piece letter, for the white or the black side; any other
/// character is its own figurine.
pub open spec fn figurine(c: char, white: bool) -> char {
    if c == 'N' {
        if white { '\u{2658}' } else { '\u{265e}' }
    } else if c == 'B' {
        if white { '\u{2657}' } else { '\u{265d}' }
    } else if c == 'R' {
        if white { '\u{2656}' } else { '\u{265c}' }
    } else if c == 'Q' {
        if white { '\u{2655}' } else { '\u{265b}' }
    } else if c == 'K' {
        if white { '\u{2654}' } else { '\u{265a}' }
    } else {
        c
    }
}

/// A text in which the first piece letter, if there is one, is replaced by
/// its figurine.
pub open spec fn figurine_text(san: Seq<char>, white: bool) -> Seq<char>
    decreases san.len(),
{
    if san.len() == 0 {
        san
    } else if is_piece_letter(san[0]) {
        seq![figurine(san[0], white)] + san.drop_first()
    } else {
        seq![san[0]] + figurine_text(san.drop_first(), white)
    }
}

/// Whether `index` is the place of the first piece letter of a text.
pub open spec fn is_first_piece_letter(san: Seq<char>, index: int) -> bool {
    &&& 0 <= index < san.len()
    &&& is_piece_letter(san[index])
    &&& forall|j: int| 0 <= j < index ==> !is_piece_letter(#[trigger] san[j])
}

/// Whether a text holds no piece letter.
pub open spec fn has_no_piece_letter(san: Seq<char>) -> bool {
    forall|j: int| 0 <= j < san.len() ==> !is_piece_letter(#[trigger] san[j])
}

/// The figurine form of a text without a piece letter is the text itself.
pub proof fn lemma_figurine_text_without_piece(san: Seq<char>, white: bool)
    requires
        has_no_piece_letter(san),
    ensures
        figurine_text(san, white) == san,
    decreases san.len(),
{
    if san.len() > 0 {
        let rest = san.drop_first();
        assert forall|j: int| 0 <= j < rest.len() implies !is_piece_letter(#[trigger] rest[j]) by {
            assert(rest[j] == san[j + 1]);
        }
        lemma_figurine_text_without_piece(rest, white);
        assert(seq![san[0]] + rest =~= san);
    }
}

/// The figurine form of a text differs from the text in the place of its
/// first piece letter only, where it holds that letter's figurine.
pub proof fn lemma_figurine_text_replaces_first(san: Seq<char>, white: bool, index: int)
    requires
        is_first_piece_letter(san, index),
    ensures
        figurine_text(san, white) == san.update(index, figurine(san[index], white)),
    decreases san.len(),
{
    let rest = san.drop_first();
    if index == 0 {
        assert(seq![figurine(san[0], white)] + rest =~= san.update(0, figurine(san[0], white)));
    } else {
        assert(!is_piece_letter(san[0]));
        assert forall|j: int| 0 <= j < index - 1 implies !is_piece_letter(#[trigger] rest[j]) by {
            assert(rest[j] == san[j + 1]);
        }
        assert(rest[index - 1] == san[index]);
        lemma_figurine_text_replaces_first(rest, white, index - 1);
        assert(seq![san[0]] + rest.update(index - 1, figurine(san[index], white)) =~= san.update(
            index,
            figurine(san[index], white),
        ));
    }
}

/// The figurine form of a text is as long as the text.
pub proof fn lemma_figurine_text_len(san: Seq<char>, white: bool)
    ensures
        figurine_text(san, white).len() == san.len(),
    decreases san.len(),
{
    if san.len() > 0 && !is_piece_letter(san[0]) {
        lemma_figurine_text_len(san.drop_first(), white);
    }
}

/// Figurine of the knight.
pub fn knight_text(white: bool) -> (c: char)
    ensures
        c == figurine('N', white),
{
    if white { '\u{2658}' } else { '\u{265e}' }
}

/// Figurine of the bishop.
pub fn bishop_text(white: bool) -> (c: char)
    ensures
        c == figurine('B', white),
{
    if white { '\u{2657}' } else { '\u{265d}' }
}

/// Figurine of the rook.
pub fn rook_text(white: bool) -> (c: char)
    ensures
        c == figurine('R', white),
{
    if white { '\u{2656}' } else { '\u{265c}' }
}

/// Figurine of the queen.
pub fn queen_text(white: bool) -> (c: char)
    ensures
        c == figurine('Q', white),
{
    if white { '\u{2655}' } else { '\u{265b}' }
}

/// Figurine of the king.
pub fn king_text(white: bool) -> (c: char)
    ensures
        c == figurine('K', white),
{
    if white { '\u{2654}' } else { '\u{265a}' }
}

/// Turns a move in standard algebraic notation into figurine notation: the
/// first piece letter of the text is replaced by the figurine of that piece
/// for the side that moved; a text without a piece letter is left as it is.
pub fn san_to_fan(san: String, white_player: bool) -> (fan: String)
    ensures
        fan@ == figurine_text(san@, white_player),
{
    let text = san.as_str();
    let length: usize = text.unicode_len();
    let mut fan = String::new();
    let mut replaced = false;
    let mut i: usize = 0;
    assert(san@.skip(0) =~= san@);
    while i < length
        invariant
            text@ == san@,
            length == san@.len(),
            0 <= i <= length,
            figurine_text(san@, white_player) == fan@ + if replaced {
                san@.skip(i as int)
            } else {
                figurine_text(san@.skip(i as int), white_player)
            },
        decreases length - i,
    {
        let current: char = text.get_char(i);
        let ghost before = fan@;
        let ghost rest = san@.skip(i as int);
        assert(rest[0] == current);
        assert(rest.drop_first() =~= san@.skip(i + 1));
        if !replaced && (current == 'N' || current == 'B' || current == 'R' || current == 'Q'
            || current == 'K') {
            let substitute: char = match current {
                'N' => knight_text(white_player),
                'B' => bishop_text(white_player),
                'R' => rook_text(white_player),
                'Q' => queen_text(white_player),
                _ => king_text(white_player),
            };
            push_char(&mut fan, substitute);
            replaced = true;
            assert(before + (seq![substitute] + rest.drop_first()) =~= fan@ + san@.skip(i + 1));
        } else {
            push_char(&mut fan, current);
            if replaced {
                assert(before + rest =~= fan@ + san@.skip(i + 1));
            } else {
                assert(before + (seq![current] + figurine_text(rest.drop_first(), white_player))
                    =~= fan@ + figurine_text(san@.skip(i + 1), white_player));
            }
        }
        i += 1;
    }
    assert(san@.skip(length as int) =~= Seq::<char>::empty());
    assert(fan@ + Seq::<char>::empty() =~= fan@);
    fan
}

} // verus!
