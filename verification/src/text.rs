//! Building message text.

use vstd::prelude::*;
use vstd::string::*;
use vstd::utf8::*;

verus! {

/// The view of an optional text.
pub open spec fn text_of(value: Option<String>) -> Option<Seq<char>> {
    match value {
        Some(text) => Some(text@),
        None => None,
    }
}

/// The text is empty, or its first character takes one byte in UTF-8: it is
/// at most U+007F. Such a text can be cut behind its first byte.
pub open spec fn is_plain_start(text: Seq<char>) -> bool {
    text.len() == 0 || text[0] as u32 <= 0x7F
}

/// The UTF-8 bytes of a text are empty exactly when the text is, and the
/// first byte is below 128 exactly when the first character takes one byte.
pub proof fn lemma_first_byte(text: Seq<char>)
    ensures
        encode_utf8(text).len() == 0 <==> text.len() == 0,
        text.len() > 0 ==> (encode_utf8(text)[0] < 0x80 <==> text[0] as u32 <= 0x7F),
{
    if text.len() > 0 {
        let scalar = text[0] as u32;
        char_is_scalar(text[0]);
        let first = encode_scalar(scalar);
        assert(encode_utf8(text) == first + encode_utf8(text.drop_first()));
        assert(first.len() > 0);
        assert(encode_utf8(text)[0] == first[0]);
        if has_width_1_encoding(scalar) {
            assert(first[0] == leading_byte_width_1(scalar));
            assert(((scalar & 0x7F) as u8) < 0x80u8) by (bit_vector);
        } else if has_width_2_encoding(scalar) {
            assert(first[0] == leading_byte_width_2(scalar));
            assert((0xC0u8 | (((scalar >> 6) & 0x1F) as u8)) >= 0x80u8) by (bit_vector);
        } else if has_width_3_encoding(scalar) {
            assert(first[0] == leading_byte_width_3(scalar));
            assert((0xE0u8 | (((scalar >> 12) & 0x0F) as u8)) >= 0x80u8) by (bit_vector);
        } else {
            assert(first[0] == leading_byte_width_4(scalar));
            assert((0xF0u8 | (((scalar >> 18) & 0x7) as u8)) >= 0x80u8) by (bit_vector);
        }
    }
}

/// Whether the text is empty or starts with a character of one byte.
pub fn has_plain_start(text: &str) -> (plain: bool)
    ensures
        plain == is_plain_start(text@),
{
    let bytes = text.as_bytes();
    proof {
        lemma_first_byte(text@);
    }
    bytes.len() == 0 || bytes[0] < 0x80
}

/// The character of a decimal digit.
pub open spec fn digit_char(digit: nat) -> char
    recommends
        digit < 10,
{
    if digit == 0 {
        '0'
    } else if digit == 1 {
        '1'
    } else if digit == 2 {
        '2'
    } else if digit == 3 {
        '3'
    } else if digit == 4 {
        '4'
    } else if digit == 5 {
        '5'
    } else if digit == 6 {
        '6'
    } else if digit == 7 {
        '7'
    } else if digit == 8 {
        '8'
    } else {
        '9'
    }
}

/// A number written in decimal, without leading zeros.
pub open spec fn decimal(number: nat) -> Seq<char>
    decreases number,
{
    if number < 10 {
        seq![digit_char(number)]
    } else {
        decimal(number / 10).push(digit_char(number % 10))
    }
}

/// The text of one decimal digit.
fn digit_text(digit: u64) -> (text: &'static str)
    requires
        digit < 10,
    ensures
        text@ == seq![digit_char(digit as nat)],
{
    proof {
        reveal_strlit("0");
        reveal_strlit("1");
        reveal_strlit("2");
        reveal_strlit("3");
        reveal_strlit("4");
        reveal_strlit("5");
        reveal_strlit("6");
        reveal_strlit("7");
        reveal_strlit("8");
        reveal_strlit("9");
    }
    let text = if digit == 0 {
        "0"
    } else if digit == 1 {
        "1"
    } else if digit == 2 {
        "2"
    } else if digit == 3 {
        "3"
    } else if digit == 4 {
        "4"
    } else if digit == 5 {
        "5"
    } else if digit == 6 {
        "6"
    } else if digit == 7 {
        "7"
    } else if digit == 8 {
        "8"
    } else {
        "9"
    };
    assert(text@ =~= seq![digit_char(digit as nat)]);
    text
}

/// Appends `number` in decimal to `text`.
pub fn push_decimal(text: &mut String, number: u64)
    ensures
        final(text)@ == old(text)@ + decimal(number as nat),
    decreases number,
{
    if number >= 10 {
        push_decimal(text, number / 10);
    }
    text.append(digit_text(number % 10));
    proof {
        if number >= 10 {
            assert(old(text)@ + decimal((number / 10) as nat) + seq![
                digit_char((number % 10) as nat),
            ] =~= old(text)@ + decimal(number as nat));
        }
    }
}

/// `first` followed by `second`.
pub fn join(first: &str, second: &str) -> (text: String)
    ensures
        text@ == first@ + second@,
{
    let mut text = String::from_str(first);
    text.append(second);
    text
}

} // verus!
