//! The `application/x-www-form-urlencoded` form of a list of text pairs.
//!
//! The encoding is stated here in full; the bytes are produced by the `url`
//! crate.

use url::form_urlencoded::Serializer;
use vstd::prelude::*;
use vstd::utf8::encode_utf8;

verus! {

/// Whether a byte stands for itself in the encoding: ASCII letters and
/// digits, and `*`, `-`, `.`, `_`.
pub open spec fn is_unchanged(byte: u8) -> bool {
    ||| byte == 0x2A
    ||| byte == 0x2D
    ||| byte == 0x2E
    ||| 0x30 <= byte <= 0x39
    ||| 0x41 <= byte <= 0x5A
    ||| byte == 0x5F
    ||| 0x61 <= byte <= 0x7A
}

/// The upper-case hexadecimal digit of a value below 16.
pub open spec fn hex_digit(value: int) -> char
    recommends
        0 <= value < 16,
{
    seq!['0', '1', '2', '3', '4', '5', '6', '7', '8', '9', 'A', 'B', 'C', 'D', 'E', 'F'][value]
}

/// One byte, encoded: itself, `+` for a space, or `%` and two hexadecimal
/// digits.
pub open spec fn encoded_byte(byte: u8) -> Seq<char> {
    if is_unchanged(byte) {
        seq![byte as char]
    } else if byte == 0x20 {
        seq!['+']
    } else {
        seq!['%', hex_digit(byte as int / 16), hex_digit(byte as int % 16)]
    }
}

/// A byte string, encoded byte by byte.
pub open spec fn encoded_bytes(bytes: Seq<u8>) -> Seq<char>
    decreases bytes.len(),
{
    if bytes.len() == 0 {
        Seq::empty()
    } else {
        encoded_bytes(bytes.drop_last()) + encoded_byte(bytes.last())
    }
}

/// A pair, encoded: the key and the value, each encoded over its UTF-8
/// bytes, with `=` between them.
pub open spec fn encoded_pair(pair: (String, String)) -> Seq<char> {
    encoded_bytes(encode_utf8(pair.0@)) + seq!['='] + encoded_bytes(encode_utf8(pair.1@))
}

/// A list of pairs, encoded: the pairs in their order, with `&` between
/// neighbours.
pub open spec fn form_urlencoded(pairs: Seq<(String, String)>) -> Seq<char>
    decreases pairs.len(),
{
    if pairs.len() == 0 {
        Seq::empty()
    } else if pairs.len() == 1 {
        encoded_pair(pairs[0])
    } else {
        form_urlencoded(pairs.drop_last()) + seq!['&'] + encoded_pair(pairs.last())
    }
}

/// Runs `url::form_urlencoded::Serializer` over `pairs`: a new serializer on
/// an empty string, `extend_pairs`, `finish`. Taken on trust: the string that
/// comes back is [`form_urlencoded`] of the pairs.
#[verifier::external_body]
pub(crate) fn encode_pairs(pairs: Vec<(String, String)>) -> (encoded: String)
    ensures
        encoded@ == form_urlencoded(pairs@),
{
    Serializer::new(String::new()).extend_pairs(pairs).finish()
}

} // verus!
