//! Reading bytes as text, and small searches over text, stated over the
//! characters of a string.

use vstd::prelude::*;
use vstd::std_specs::iter::IteratorSpec;
use vstd::string::StrSliceExecFns;
use vstd::string::StringSliceAdditionalSpecFns;
use vstd::utf8::{
    decode_utf8, decode_utf8_encode_utf8, encode_scalar, encode_utf8, encode_utf8_decode_utf8,
    encode_utf8_valid_utf8, has_width_1_encoding, leading_byte_width_1, valid_utf8,
};

verus! {

/// The text that `bytes` encode in UTF-8, if they encode one.
pub open spec fn utf8_text(bytes: Seq<u8>) -> Option<Seq<char>> {
    if valid_utf8(bytes) {
        Some(decode_utf8(bytes))
    } else {
        None
    }
}

/// The UTF-8 bytes of a text encode that text.
pub proof fn lemma_utf8_text_of_encoding(text: Seq<char>)
    ensures
        utf8_text(encode_utf8(text)) == Some(text),
{
    encode_utf8_valid_utf8(text);
    encode_utf8_decode_utf8(text);
}

/// `std::str::from_utf8`: the bytes are read as a string exactly when they
/// are valid UTF-8, and the string then holds the text that they encode.
#[verifier::external_body]
pub(crate) fn str_from_utf8<'a>(bytes: &'a [u8]) -> (r: Option<&'a str>)
    ensures
        match r {
            Some(s) => utf8_text(bytes@) == Some(s@),
            None => utf8_text(bytes@) is None,
        },
{
    std::str::from_utf8(bytes).ok()
}

/// `i` is where `c` first occurs in `s`.
pub open spec fn is_first_index_of(s: Seq<char>, c: char, i: int) -> bool {
    &&& 0 <= i < s.len()
    &&& s[i] == c
    &&& forall|j: int| 0 <= j < i ==> s[j] != c
}

/// Where `c` first occurs in `s`, if it occurs at all.
pub open spec fn first_index_of(s: Seq<char>, c: char) -> Option<int> {
    if exists|i: int| is_first_index_of(s, c, i) {
        Some(choose|i: int| is_first_index_of(s, c, i))
    } else {
        None
    }
}

/// A first occurrence is the only one that `first_index_of` can name.
pub proof fn lemma_first_index_of_found(s: Seq<char>, c: char, i: int)
    requires
        is_first_index_of(s, c, i),
    ensures
        first_index_of(s, c) == Some(i),
{
    let k = choose|k: int| is_first_index_of(s, c, k);
    assert(is_first_index_of(s, c, k));
    assert(k == i) by {
        if k < i {
            assert(s[k] != c);
        } else if i < k {
            assert(s[i] != c);
        }
    }
}

/// A character that does not occur has no first occurrence.
pub proof fn lemma_first_index_of_absent(s: Seq<char>, c: char)
    requires
        !s.contains(c),
    ensures
        first_index_of(s, c) is None,
{
    assert forall|i: int| !is_first_index_of(s, c, i) by {
        if 0 <= i < s.len() {
            assert(s.contains(s[i]));
        }
    }
}

/// A text has at most as many characters as its UTF-8 encoding has bytes.
pub proof fn lemma_chars_at_most_bytes(s: Seq<char>)
    ensures
        s.len() <= encode_utf8(s).len(),
    decreases s.len(),
{
    if s.len() > 0 {
        lemma_chars_at_most_bytes(s.drop_first());
        assert(encode_scalar(s[0] as u32).len() >= 1);
    }
}

/// An ASCII character of a text is one of the bytes of its UTF-8 encoding.
pub proof fn lemma_ascii_char_among_bytes(text: Seq<char>, c: char)
    requires
        text.contains(c),
        c as u32 <= 0x7f,
    ensures
        encode_utf8(text).contains(c as u8),
    decreases text.len(),
{
    let first = encode_scalar(text[0] as u32);
    let rest = encode_utf8(text.drop_first());
    let bytes = encode_utf8(text);
    assert(bytes == first + rest);
    if text[0] == c {
        let scalar = c as u32;
        assert(scalar as u8 == leading_byte_width_1(scalar)) by (bit_vector)
            requires
                has_width_1_encoding(scalar),
        ;
        assert(bytes[0] == c as u8);
    } else {
        let i = choose|i: int| 0 <= i < text.len() && text[i] == c;
        assert(text.drop_first()[i - 1] == c);
        lemma_ascii_char_among_bytes(text.drop_first(), c);
        let j = choose|j: int| 0 <= j < rest.len() && rest[j] == c as u8;
        assert(bytes[first.len() + j] == c as u8);
    }
}

/// Bytes that hold no `=` do not encode a text that holds one.
pub proof fn lemma_no_separator_byte_no_separator(bytes: Seq<u8>)
    requires
        !bytes.contains(0x3du8),
    ensures
        match utf8_text(bytes) {
            Some(text) => !text.contains('='),
            None => true,
        },
{
    if valid_utf8(bytes) {
        let text = decode_utf8(bytes);
        decode_utf8_encode_utf8(bytes);
        if text.contains('=') {
            lemma_ascii_char_among_bytes(text, '=');
        }
    }
}

/// Finds the first occurrence of `c` in `s`, counting characters.
pub fn find_char(s: &str, c: char) -> (r: Option<usize>)
    ensures
        match r {
            Some(i) => first_index_of(s@, c) == Some(i as int),
            None => first_index_of(s@, c) is None,
        },
        r is None <==> !s@.contains(c),
{
    let byte_len = s.as_bytes().len();
    proof {
        lemma_chars_at_most_bytes(s@);
        assert(s@.len() <= byte_len);
    }
    let mut it = s.chars();
    let mut i: usize = 0;
    loop
        invariant
            i <= s@.len() <= usize::MAX,
            it.remaining() == s@.subrange(i as int, s@.len() as int),
            forall|j: int| 0 <= j < i ==> s@[j] != c,
        decreases s@.len() - i,
    {
        match it.next() {
            Some(d) => {
                if d == c {
                    proof {
                        lemma_first_index_of_found(s@, c, i as int);
                    }
                    return Some(i);
                }
                i = i + 1;
            },
            None => {
                proof {
                    lemma_first_index_of_absent(s@, c);
                }
                return None;
            },
        }
    }
}

/// Two texts with the same UTF-8 encoding are the same text.
pub proof fn lemma_encoding_is_injective(a: Seq<char>, b: Seq<char>)
    requires
        encode_utf8(a) == encode_utf8(b),
    ensures
        a == b,
{
    encode_utf8_decode_utf8(a);
    encode_utf8_decode_utf8(b);
}

/// Whether two strings hold the same text.
pub fn str_eq(a: &str, b: &str) -> (r: bool)
    ensures
        r == (a@ == b@),
{
    let x = a.as_bytes();
    let y = b.as_bytes();
    if x.len() != y.len() {
        return false;
    }
    let mut i: usize = 0;
    while i < x.len()
        invariant
            i <= x@.len(),
            x@.len() == y@.len(),
            x@ == a.spec_bytes(),
            y@ == b.spec_bytes(),
            forall|j: int| 0 <= j < i ==> x@[j] == y@[j],
        decreases x@.len() - i,
    {
        if x[i] != y[i] {
            return false;
        }
        i = i + 1;
    }
    proof {
        assert(x@ =~= y@);
        lemma_encoding_is_injective(a@, b@);
    }
    true
}

/// What is left of `s` once the leading `prefix` is taken away, if `s` begins
/// with it.
pub open spec fn strip_prefix_spec(s: Seq<char>, prefix: Seq<char>) -> Option<Seq<char>> {
    if prefix.is_prefix_of(s) {
        Some(s.skip(prefix.len() as int))
    } else {
        None
    }
}

/// Takes the leading `prefix` away from `s`, if `s` begins with it.
pub fn strip_prefix<'a>(s: &'a str, prefix: &str) -> (r: Option<&'a str>)
    ensures
        match r {
            Some(rest) => strip_prefix_spec(s@, prefix@) == Some(rest@),
            None => strip_prefix_spec(s@, prefix@) is None,
        },
{
    let n = s.unicode_len();
    let m = prefix.unicode_len();
    if n < m {
        return None;
    }
    let head = s.substring_char(0, m);
    if str_eq(head, prefix) {
        let rest = s.substring_char(m, n);
        proof {
            assert(prefix@ =~= s@.subrange(0, m as int));
            assert(rest@ =~= s@.skip(m as int));
        }
        Some(rest)
    } else {
        proof {
            if prefix@.is_prefix_of(s@) {
                assert(prefix@ =~= s@.subrange(0, m as int));
            }
        }
        None
    }
}

} // verus!
