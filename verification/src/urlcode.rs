//! Percent-decoding of the parts of a request path.
//!
//! A `%` followed by two hexadecimal digits stands for the byte with that
//! value; every other byte stands for itself. The decoded bytes must be the
//! UTF-8 encoding of a text.

use vstd::prelude::*;
use vstd::utf8::{encode_utf8, is_ascii_chars, is_ascii_chars_encode_utf8};

use crate::text::{
    lemma_chars_at_most_bytes, lemma_utf8_text_of_encoding, str_from_utf8, utf8_text,
};

verus! {

/// The byte `%`.
pub const PERCENT: u8 = 0x25;

/// Whether `b` is one of `0-9`, `A-F`, `a-f`.
pub open spec fn is_hex_digit(b: u8) -> bool {
    ||| 0x30 <= b <= 0x39
    ||| 0x41 <= b <= 0x46
    ||| 0x61 <= b <= 0x66
}

/// The value of the hexadecimal digit `b`.
pub open spec fn hex_value(b: u8) -> int
    recommends
        is_hex_digit(b),
{
    if 0x30 <= b <= 0x39 {
        b - 0x30
    } else if 0x41 <= b <= 0x46 {
        b - 0x41 + 10
    } else {
        b - 0x61 + 10
    }
}

/// Whether `bytes` begins with `%` and two hexadecimal digits.
pub open spec fn starts_with_escape(bytes: Seq<u8>) -> bool {
    &&& bytes.len() >= 3
    &&& bytes[0] == PERCENT
    &&& is_hex_digit(bytes[1])
    &&& is_hex_digit(bytes[2])
}

/// The bytes that `bytes` stands for once every escape is replaced by the
/// byte it names.
pub open spec fn percent_decoded(bytes: Seq<u8>) -> Seq<u8>
    decreases bytes.len(),
{
    if bytes.len() == 0 {
        Seq::empty()
    } else if starts_with_escape(bytes) {
        seq![(hex_value(bytes[1]) * 16 + hex_value(bytes[2])) as u8] + percent_decoded(
            bytes.skip(3),
        )
    } else {
        seq![bytes[0]] + percent_decoded(bytes.skip(1))
    }
}

/// The text that the percent-encoded `text` stands for, if its decoded bytes
/// are UTF-8.
pub open spec fn url_decoded(text: Seq<char>) -> Option<Seq<char>> {
    utf8_text(percent_decoded(encode_utf8(text)))
}

/// Whether `b` may stand for itself in an encoded text: a letter, a digit,
/// or one of `-`, `.`, `_`, `~`.
pub open spec fn is_unreserved(b: u8) -> bool {
    ||| 0x30 <= b <= 0x39
    ||| 0x41 <= b <= 0x5a
    ||| 0x61 <= b <= 0x7a
    ||| b == 0x2d
    ||| b == 0x2e
    ||| b == 0x5f
    ||| b == 0x7e
}

/// The hexadecimal digit, in upper case, for a value below sixteen.
pub open spec fn hex_digit_of(value: u8) -> u8
    recommends
        value < 16,
{
    if value < 10 {
        (0x30 + value) as u8
    } else {
        (0x41 + value - 10) as u8
    }
}

/// The percent-encoding of `bytes`: an unreserved byte stands for itself,
/// every other byte is written as `%` and its two hexadecimal digits.
pub open spec fn percent_encoded(bytes: Seq<u8>) -> Seq<u8>
    decreases bytes.len(),
{
    if bytes.len() == 0 {
        Seq::empty()
    } else if is_unreserved(bytes[0]) {
        seq![bytes[0]] + percent_encoded(bytes.skip(1))
    } else {
        seq![PERCENT, hex_digit_of(bytes[0] / 16), hex_digit_of(bytes[0] % 16)] + percent_encoded(
            bytes.skip(1),
        )
    }
}

/// The text whose characters are the given ASCII bytes.
pub open spec fn ascii_text(bytes: Seq<u8>) -> Seq<char> {
    Seq::new(bytes.len(), |i: int| bytes[i] as char)
}

/// The percent-encoding of `text`, as a client writes it into a path.
pub open spec fn url_encoded(text: Seq<char>) -> Seq<char> {
    ascii_text(percent_encoded(encode_utf8(text)))
}

/// An encoding holds only `%`, hexadecimal digits and unreserved bytes, and
/// is empty only for the empty input.
pub proof fn lemma_percent_encoded_bytes(bytes: Seq<u8>)
    ensures
        forall|i: int|
            0 <= i < percent_encoded(bytes).len() ==> {
                let b = #[trigger] percent_encoded(bytes)[i];
                b == PERCENT || is_unreserved(b)
            },
        bytes.len() > 0 ==> percent_encoded(bytes).len() > 0,
    decreases bytes.len(),
{
    if bytes.len() > 0 {
        let rest = percent_encoded(bytes.skip(1));
        let encoded = percent_encoded(bytes);
        lemma_percent_encoded_bytes(bytes.skip(1));
        let head = (encoded.len() - rest.len()) as int;
        assert forall|i: int| 0 <= i < encoded.len() implies {
            let b = #[trigger] encoded[i];
            b == PERCENT || is_unreserved(b)
        } by {
            if i >= head {
                assert(encoded[i] == rest[i - head]);
            } else {
                assert(is_unreserved(hex_digit_of(bytes[0] / 16)));
                assert(is_unreserved(hex_digit_of(bytes[0] % 16)));
            }
        }
    }
}

/// Decoding undoes encoding, byte for byte.
pub proof fn lemma_percent_decoded_inverts_encoded(bytes: Seq<u8>)
    ensures
        percent_decoded(percent_encoded(bytes)) == bytes,
    decreases bytes.len(),
{
    if bytes.len() > 0 {
        let rest = bytes.skip(1);
        let b = bytes[0];
        lemma_percent_decoded_inverts_encoded(rest);
        let encoded = percent_encoded(bytes);
        if is_unreserved(b) {
            assert(encoded.skip(1) =~= percent_encoded(rest));
            assert(!starts_with_escape(encoded));
        } else {
            assert(encoded.skip(3) =~= percent_encoded(rest));
            assert(starts_with_escape(encoded));
            assert(hex_value(encoded[1]) * 16 + hex_value(encoded[2]) == b);
        }
        assert(seq![b] + rest =~= bytes);
    }
}

/// An encoded text is ASCII, holds no `/`, is empty only for the empty text,
/// and its UTF-8 bytes are the percent-encoding of the text's UTF-8 bytes.
pub proof fn lemma_url_encoded_shape(text: Seq<char>)
    ensures
        is_ascii_chars(url_encoded(text)),
        !url_encoded(text).contains('/'),
        text.len() > 0 ==> url_encoded(text).len() > 0,
        encode_utf8(url_encoded(text)) == percent_encoded(encode_utf8(text)),
{
    let bytes = percent_encoded(encode_utf8(text));
    let encoded = url_encoded(text);
    lemma_percent_encoded_bytes(encode_utf8(text));
    assert forall|i: int| 0 <= i < encoded.len() implies '\0' <= #[trigger] encoded[i]
        <= '\u{7f}' && encoded[i] != '/' by {
        let b = bytes[i];
        assert(b == PERCENT || is_unreserved(b));
    }
    is_ascii_chars_encode_utf8(encoded);
    assert forall|i: int| 0 <= i < bytes.len() implies encode_utf8(encoded)[i] == bytes[i] by {
        assert(encoded[i] as u8 == encode_utf8(encoded)[i]);
    }
    assert(encode_utf8(encoded) =~= bytes);
    if text.len() > 0 {
        lemma_chars_at_most_bytes(text);
    }
}

/// Decoding the encoding of a text gives the text back.
pub proof fn lemma_url_decoded_inverts_encoded(text: Seq<char>)
    ensures
        url_decoded(url_encoded(text)) == Some(text),
{
    lemma_url_encoded_shape(text);
    lemma_percent_decoded_inverts_encoded(encode_utf8(text));
    lemma_utf8_text_of_encoding(text);
}

/// The text of an optional string.
pub open spec fn option_text(s: Option<String>) -> Option<Seq<char>> {
    match s {
        Some(s) => Some(s@),
        None => None,
    }
}

/// The value of `b` as a hexadecimal digit, if it is one.
pub fn hex_digit(b: u8) -> (r: Option<u8>)
    ensures
        match r {
            Some(v) => is_hex_digit(b) && v == hex_value(b),
            None => !is_hex_digit(b),
        },
{
    if 0x30 <= b && b <= 0x39 {
        Some(b - 0x30)
    } else if 0x41 <= b && b <= 0x46 {
        Some(b - 0x41 + 10)
    } else if 0x61 <= b && b <= 0x66 {
        Some(b - 0x61 + 10)
    } else {
        None
    }
}

/// Replaces every escape in `bytes` by the byte it names.
pub fn percent_decode(bytes: &[u8]) -> (out: Vec<u8>)
    ensures
        out@ == percent_decoded(bytes@),
{
    let n = bytes.len();
    let mut out: Vec<u8> = Vec::new();
    let mut i: usize = 0;
    proof {
        assert(bytes@.skip(0) =~= bytes@);
        assert(out@ + percent_decoded(bytes@) =~= percent_decoded(bytes@));
    }
    while i < n
        invariant
            n == bytes@.len(),
            i <= n,
            out@ + percent_decoded(bytes@.skip(i as int)) == percent_decoded(bytes@),
        decreases n - i,
    {
        let ghost rest = bytes@.skip(i as int);
        let ghost before = out@;
        let mut step: usize = 1;
        let mut byte = bytes[i];
        if byte == PERCENT && n - i >= 3 {
            match (hex_digit(bytes[i + 1]), hex_digit(bytes[i + 2])) {
                (Some(high), Some(low)) => {
                    byte = high * 16 + low;
                    step = 3;
                },
                _ => {},
            }
        }
        out.push(byte);
        proof {
            assert(rest.skip(step as int) =~= bytes@.skip(i + step));
            assert(percent_decoded(rest) == seq![byte] + percent_decoded(rest.skip(step as int)));
            assert(before + (seq![byte] + percent_decoded(rest.skip(step as int))) =~= before.push(
                byte,
            ) + percent_decoded(rest.skip(step as int)));
        }
        i = i + step;
    }
    proof {
        assert(bytes@.skip(n as int) =~= Seq::<u8>::empty());
        assert(out@ + Seq::<u8>::empty() =~= out@);
    }
    out
}

/// Decodes a percent-encoded piece of a path into the text it stands for.
/// There is no text where the decoded bytes are not UTF-8.
pub fn url_decode(text: &str) -> (r: Option<String>)
    ensures
        option_text(r) == url_decoded(text@),
{
    let bytes = percent_decode(text.as_bytes());
    match str_from_utf8(bytes.as_slice()) {
        Some(decoded) => Some(decoded.to_owned()),
        None => None,
    }
}

} // verus!
