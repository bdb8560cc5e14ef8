//! Percent-encoding of query values and path segments.
//!
//! Small on purpose: the SDK only ever sends ids and a closed list of words, so
//! the unreserved set of RFC 3986 passes through and every other byte of the
//! UTF-8 text becomes `%XX` with upper-case hex.

use vstd::prelude::*;

use crate::text::push_char;
use vstd::string::StringSliceAdditionalSpecFns;
use vstd::utf8::encode_utf8;

verus! {

/// The bytes RFC 3986 calls unreserved: letters, digits, `-`, `_`, `.`, `~`.
pub open spec fn is_unreserved(b: u8) -> bool {
    ||| 65 <= b <= 90
    ||| 97 <= b <= 122
    ||| 48 <= b <= 57
    ||| b == 45
    ||| b == 95
    ||| b == 46
    ||| b == 126
}

/// The upper-case hex digit for a nibble below sixteen.
pub open spec fn hex_digit(n: nat) -> char {
    if n < 10 {
        ((48 + n) as u32) as char
    } else {
        ((55 + n) as u32) as char
    }
}

/// What one byte becomes: itself when unreserved, `%XX` otherwise.
pub open spec fn escape_byte(b: u8) -> Seq<char> {
    if is_unreserved(b) {
        seq![(b as u32) as char]
    } else {
        seq!['%', hex_digit((b / 16) as nat), hex_digit((b % 16) as nat)]
    }
}

/// The percent-encoding of a byte sequence, byte by byte.
pub open spec fn percent_encode(bytes: Seq<u8>) -> Seq<char>
    decreases bytes.len(),
{
    if bytes.len() == 0 {
        Seq::empty()
    } else {
        percent_encode(bytes.drop_last()) + escape_byte(bytes.last())
    }
}

/// The percent-encoding of a text's UTF-8 bytes.
pub open spec fn percent_encode_text(text: Seq<char>) -> Seq<char> {
    percent_encode(encode_utf8(text))
}

/// The characters an encoded value can hold: the unreserved ones, and `%`.
pub open spec fn is_encoded_char(c: char) -> bool {
    ||| 'A' <= c <= 'Z'
    ||| 'a' <= c <= 'z'
    ||| '0' <= c <= '9'
    ||| c == '-'
    ||| c == '_'
    ||| c == '.'
    ||| c == '~'
    ||| c == '%'
}

/// The value a hex digit stands for: `0`-`9`, then upper-case `A`-`F`.
pub open spec fn hex_value(c: char) -> int {
    if '0' <= c <= '9' {
        c as int - 48
    } else {
        c as int - 55
    }
}

/// Reads percent-encoded text back into bytes: `%XX` is the byte `XX`, any
/// other character is its own code as a byte.
pub open spec fn percent_decode(text: Seq<char>) -> Seq<u8>
    decreases text.len(),
{
    if text.len() == 0 {
        Seq::empty()
    } else if text[0] == '%' && text.len() >= 3 {
        seq![(hex_value(text[1]) * 16 + hex_value(text[2])) as u8] + percent_decode(text.skip(3))
    } else {
        seq![(text[0] as u32) as u8] + percent_decode(text.skip(1))
    }
}

proof fn lemma_decode_escape(b: u8, rest: Seq<char>)
    ensures
        percent_decode(escape_byte(b) + rest) == seq![b] + percent_decode(rest),
{
    let text = escape_byte(b) + rest;
    if is_unreserved(b) {
        assert(text[0] == (b as u32) as char);
        assert(text.skip(1) =~= rest);
    } else {
        let hi = (b / 16) as nat;
        let lo = (b % 16) as nat;
        assert(text[0] == '%' && text[1] == hex_digit(hi) && text[2] == hex_digit(lo));
        assert(hex_value(hex_digit(hi)) == hi);
        assert(hex_value(hex_digit(lo)) == lo);
        assert(text.skip(3) =~= rest);
    }
}

proof fn lemma_decode_encoded_prefix(bytes: Seq<u8>, rest: Seq<char>)
    ensures
        percent_decode(percent_encode(bytes) + rest) == bytes + percent_decode(rest),
    decreases bytes.len(),
{
    if bytes.len() == 0 {
        assert(percent_encode(bytes) + rest =~= rest);
        assert(bytes + percent_decode(rest) =~= percent_decode(rest));
    } else {
        let front = bytes.drop_last();
        let last = bytes.last();
        assert(percent_encode(bytes) + rest =~= percent_encode(front) + (escape_byte(last) + rest));
        lemma_decode_encoded_prefix(front, escape_byte(last) + rest);
        lemma_decode_escape(last, rest);
        assert(front + (seq![last] + percent_decode(rest)) =~= bytes + percent_decode(rest));
    }
}

/// Percent-encoding loses nothing: decoding gives the bytes back.
pub proof fn law_encoding_can_be_read_back(bytes: Seq<u8>)
    ensures
        percent_decode(percent_encode(bytes)) == bytes,
{
    lemma_decode_encoded_prefix(bytes, Seq::empty());
    assert(percent_encode(bytes) + Seq::<char>::empty() =~= percent_encode(bytes));
    assert(bytes + percent_decode(Seq::<char>::empty()) =~= bytes);
}

/// Two different ids never become the same path segment.
pub proof fn law_distinct_texts_encode_apart(a: Seq<char>, b: Seq<char>)
    requires
        a != b,
    ensures
        percent_encode_text(a) != percent_encode_text(b),
{
    law_encoding_can_be_read_back(encode_utf8(a));
    law_encoding_can_be_read_back(encode_utf8(b));
    vstd::utf8::encode_utf8_decode_utf8(a);
    vstd::utf8::encode_utf8_decode_utf8(b);
}

fn hex_char(n: u8) -> (c: char)
    requires
        n < 16,
    ensures
        c == hex_digit(n as nat),
{
    if n < 10 {
        (48u8 + n) as char
    } else {
        (55u8 + n) as char
    }
}

fn unreserved(b: u8) -> (r: bool)
    ensures
        r == is_unreserved(b),
{
    (65u8 <= b && b <= 90u8) || (97u8 <= b && b <= 122u8) || (48u8 <= b && b <= 57u8) || b == 45u8
        || b == 95u8 || b == 46u8 || b == 126u8
}

/// Percent-encodes a query value: every byte of its UTF-8 text outside the
/// unreserved set becomes `%XX`.
pub fn encode(value: &str) -> (encoded: String)
    ensures
        encoded@ == percent_encode_text(value@),
{
    let bytes = value.as_bytes();
    let mut encoded = String::new();
    let mut i: usize = 0;
    while i < bytes.len()
        invariant
            i <= bytes@.len(),
            bytes@ == value.spec_bytes(),
            encoded@ == percent_encode(bytes@.take(i as int)),
        decreases bytes@.len() - i,
    {
        let b = bytes[i];
        if unreserved(b) {
            push_char(&mut encoded, b as char);
        } else {
            push_char(&mut encoded, '%');
            push_char(&mut encoded, hex_char(b / 16));
            push_char(&mut encoded, hex_char(b % 16));
        }
        proof {
            let next = bytes@.take(i + 1);
            assert(next.drop_last() =~= bytes@.take(i as int));
            assert(next.last() == b);
        }
        i = i + 1;
    }
    proof {
        assert(bytes@.take(bytes@.len() as int) =~= bytes@);
    }
    encoded
}

/// Percent-encodes a path segment. Same rules as [`encode`], and the same reason.
pub fn encode_segment(value: &str) -> (encoded: String)
    ensures
        encoded@ == percent_encode_text(value@),
{
    encode(value)
}

/// An encoded value only ever holds unreserved characters and `%`, so an id
/// can never become a `/`, a `?` or a `#` and move the request to another
/// path.
pub proof fn law_encoded_stays_one_segment(bytes: Seq<u8>)
    ensures
        forall|i: int| 0 <= i < percent_encode(bytes).len() ==> is_encoded_char(
            #[trigger] percent_encode(bytes)[i],
        ),
    decreases bytes.len(),
{
    if bytes.len() > 0 {
        law_encoded_stays_one_segment(bytes.drop_last());
        let b = bytes.last();
        let head = percent_encode(bytes.drop_last());
        let tail = escape_byte(b);
        assert forall|i: int| 0 <= i < tail.len() implies is_encoded_char(#[trigger] tail[i]) by {
            if !is_unreserved(b) && i > 0 {
                let hi = (b / 16) as nat;
                let lo = (b % 16) as nat;
                assert(hi < 16 && lo < 16);
            }
        }
        assert forall|i: int| 0 <= i < percent_encode(bytes).len() implies is_encoded_char(
            #[trigger] percent_encode(bytes)[i],
        ) by {
            if i < head.len() {
                assert(percent_encode(bytes)[i] == head[i]);
            } else {
                assert(percent_encode(bytes)[i] == tail[i - head.len()]);
            }
        }
    }
}

/// How many of the bytes fall outside the unreserved set and so get escaped.
pub open spec fn escaped_count(bytes: Seq<u8>) -> nat
    decreases bytes.len(),
{
    if bytes.len() == 0 {
        0
    } else if is_unreserved(bytes.last()) {
        escaped_count(bytes.drop_last())
    } else {
        escaped_count(bytes.drop_last()) + 1
    }
}

/// Each escaped byte takes three characters and every other byte one, so the
/// encoding is longer than the input by two for each escaped byte.
pub proof fn law_encoded_length(bytes: Seq<u8>)
    ensures
        percent_encode(bytes).len() == bytes.len() + 2 * escaped_count(bytes),
    decreases bytes.len(),
{
    if bytes.len() > 0 {
        law_encoded_length(bytes.drop_last());
    }
}

/// Text made only of unreserved characters travels as it is.
pub proof fn law_unreserved_text_is_unchanged(bytes: Seq<u8>)
    requires
        forall|i: int| 0 <= i < bytes.len() ==> is_unreserved(#[trigger] bytes[i]),
    ensures
        percent_encode(bytes) == bytes.map_values(|b: u8| (b as u32) as char),
    decreases bytes.len(),
{
    if bytes.len() > 0 {
        let front = bytes.drop_last();
        assert forall|i: int| 0 <= i < front.len() implies is_unreserved(#[trigger] front[i]) by {
            assert(front[i] == bytes[i]);
        }
        law_unreserved_text_is_unchanged(front);
        assert(is_unreserved(bytes[bytes.len() - 1]));
        assert(percent_encode(bytes) =~= bytes.map_values(|b: u8| (b as u32) as char));
    } else {
        assert(percent_encode(bytes) =~= bytes.map_values(|b: u8| (b as u32) as char));
    }
}

} // verus!
