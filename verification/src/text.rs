//! Pieces of text that the screen is put together from.

use vstd::prelude::*;
use vstd::string::StringSliceAdditionalSpecFns;
use vstd::utf8::{
    decode_utf8, encode_utf8, is_char_boundary, valid_utf8, encode_utf8_decode_utf8,
    encode_utf8_valid_utf8, is_char_boundary_start_end_of_seq,
};

verus! {

/// `n` spaces.
pub open spec fn blank(n: int) -> Seq<char> {
    Seq::new(
        if n > 0 {
            n as nat
        } else {
            0
        },
        |i: int| ' ',
    )
}

/// The decimal digit for `d`, which is below 10.
pub open spec fn digit(d: int) -> char {
    (48 + d) as char
}

/// `n` in decimal digits, without leading zeros.
pub open spec fn decimal_text(n: nat) -> Seq<char>
    decreases n,
{
    if n < 10 {
        seq![digit(n as int)]
    } else {
        decimal_text(n / 10).push(digit((n % 10) as int))
    }
}

/// The number of bytes that `text` takes in UTF-8.
pub open spec fn byte_len(text: Seq<char>) -> int {
    encode_utf8(text).len() as int
}

/// The last place at or in front of byte `index` of `bytes`, which are
/// UTF-8, at which a character begins or the text ends.
pub open spec fn floor_boundary(bytes: Seq<u8>, index: int) -> int
    decreases index,
{
    if index <= 0 {
        0
    } else if is_char_boundary(bytes, index) {
        index
    } else {
        floor_boundary(bytes, index - 1)
    }
}

/// `text` cut down to at most `width` bytes of UTF-8: the characters that
/// fit whole into the first `width` bytes.
pub open spec fn truncated(text: Seq<char>, width: int) -> Seq<char> {
    let bytes = encode_utf8(text);
    if width >= bytes.len() {
        text
    } else {
        decode_utf8(bytes.take(floor_boundary(bytes, width)))
    }
}

/// A string of `n` spaces.
pub fn spaces(n: usize) -> (text: String)
    ensures
        text@ == blank(n as int),
{
    let mut text = String::new();
    let mut i: usize = 0;
    while i < n
        invariant
            i <= n,
            text@ =~= blank(i as int),
        decreases n - i,
    {
        text.push(' ');
        i += 1;
    }
    text
}

/// `n` in decimal digits.
pub fn decimal(n: u128) -> (text: String)
    ensures
        text@ == decimal_text(n as nat),
    decreases n,
{
    if n < 10 {
        let mut text = String::new();
        text.push((48u8 + n as u8) as char);
        assert(text@ =~= seq![digit(n as int)]);
        text
    } else {
        let mut text = decimal(n / 10);
        text.push((48u8 + (n % 10) as u8) as char);
        text
    }
}

/// `text` cut down to at most `width` bytes, and not through a character.
pub fn truncate(text: &str, width: usize) -> (cut: &str)
    ensures
        cut@ == truncated(text@, width as int),
{
    if width >= text.as_bytes().len() {
        return text;
    }
    let ghost bytes = encode_utf8(text@);
    proof {
        encode_utf8_valid_utf8(text@);
        is_char_boundary_start_end_of_seq(bytes);
    }
    let mut at = width;
    while !text.is_char_boundary(at)
        invariant
            bytes == text.spec_bytes(),
            valid_utf8(bytes),
            is_char_boundary(bytes, 0),
            at <= width < bytes.len(),
            floor_boundary(bytes, width as int) == floor_boundary(bytes, at as int),
        decreases at,
    {
        at -= 1;
    }
    let (cut, _) = text.split_at(at);
    proof {
        assert(encode_utf8(cut@) =~= bytes.take(at as int));
        encode_utf8_decode_utf8(cut@);
    }
    cut
}

} // verus!
