//! Percent-encoding of URL components.
//!
//! ASCII letters and digits stand for themselves; every other byte is
//! written as `%` and two upper-case hexadecimal digits. Decoding accepts
//! digits of either case and leaves anything that is not such a triple as
//! it is.

use crate::text::{
    ascii_string, ascii_text, is_ascii_bytes, lemma_ascii_bytes_text, string_from_bytes, text_of,
};
use vstd::prelude::*;
use vstd::string::*;
use vstd::utf8::encode_utf8;

verus! {

/// The byte `%`.
pub const PERCENT: u8 = 37;

/// An ASCII letter or digit.
pub open spec fn is_unreserved(b: u8) -> bool {
    (48 <= b <= 57) || (65 <= b <= 90) || (97 <= b <= 122)
}

/// The upper-case hexadecimal digit for a value below 16.
pub open spec fn hex_digit(n: int) -> u8
    recommends
        0 <= n < 16,
{
    if n < 10 {
        (48 + n) as u8
    } else {
        (55 + n) as u8
    }
}

/// An ASCII hexadecimal digit of either case.
pub open spec fn is_hex_digit(b: u8) -> bool {
    (48 <= b <= 57) || (65 <= b <= 70) || (97 <= b <= 102)
}

/// The value of a hexadecimal digit.
pub open spec fn hex_value(b: u8) -> int
    recommends
        is_hex_digit(b),
{
    if b <= 57 {
        b - 48
    } else if b <= 70 {
        b - 55
    } else {
        b - 87
    }
}

/// What one byte is encoded to.
pub open spec fn encode_byte(b: u8) -> Seq<u8> {
    if is_unreserved(b) {
        seq![b]
    } else {
        seq![PERCENT, hex_digit(b as int / 16), hex_digit(b as int % 16)]
    }
}

/// The percent-encoding of a byte sequence.
pub open spec fn percent_encode(s: Seq<u8>) -> Seq<u8>
    decreases s.len(),
{
    if s.len() == 0 {
        Seq::empty()
    } else {
        encode_byte(s[0]) + percent_encode(s.skip(1))
    }
}

/// A `%` followed by two hexadecimal digits starts at index `i`.
pub open spec fn escape_at(s: Seq<u8>, i: int) -> bool {
    &&& 0 <= i
    &&& i + 2 < s.len()
    &&& s[i] == PERCENT
    &&& is_hex_digit(s[i + 1])
    &&& is_hex_digit(s[i + 2])
}

/// The byte that the two digits `hi` and `lo` stand for.
pub open spec fn escaped_byte(hi: u8, lo: u8) -> u8 {
    (16 * hex_value(hi) + hex_value(lo)) as u8
}

/// The percent-decoding of a byte sequence: each `%XX` triple becomes the
/// byte it names, every other byte stays.
pub open spec fn percent_decode(s: Seq<u8>) -> Seq<u8>
    decreases s.len(),
{
    if s.len() == 0 {
        Seq::empty()
    } else if escape_at(s, 0) {
        seq![escaped_byte(s[1], s[2])] + percent_decode(s.skip(3))
    } else {
        seq![s[0]] + percent_decode(s.skip(1))
    }
}

/// The percent-encoding of a text: that of its UTF-8 bytes, as text.
pub open spec fn url_encoded(s: Seq<char>) -> Seq<char> {
    ascii_text(percent_encode(encode_utf8(s)))
}

/// The percent-decoding of a text: the UTF-8 bytes of the text are decoded,
/// and the bytes that result are read as text.
pub open spec fn url_decoded(s: Seq<char>) -> Seq<char> {
    text_of(percent_decode(encode_utf8(s)))
}

fn is_unreserved_byte(b: u8) -> (r: bool)
    ensures
        r == is_unreserved(b),
{
    (48 <= b && b <= 57) || (65 <= b && b <= 90) || (97 <= b && b <= 122)
}

fn upper_hex_digit(n: u8) -> (r: u8)
    requires
        n < 16,
    ensures
        r == hex_digit(n as int),
        is_hex_digit(r),
        hex_value(r) == n,
        r < 128,
{
    if n < 10 {
        48 + n
    } else {
        55 + n
    }
}

fn is_hex_digit_byte(b: u8) -> (r: bool)
    ensures
        r == is_hex_digit(b),
{
    (48 <= b && b <= 57) || (65 <= b && b <= 70) || (97 <= b && b <= 102)
}

fn hex_digit_value(b: u8) -> (r: u8)
    requires
        is_hex_digit(b),
    ensures
        r == hex_value(b),
        r < 16,
{
    if b <= 57 {
        b - 48
    } else if b <= 70 {
        b - 55
    } else {
        b - 87
    }
}

/// The encoding has only ASCII bytes.
pub proof fn lemma_percent_encode_is_ascii(s: Seq<u8>)
    ensures
        is_ascii_bytes(percent_encode(s)),
    decreases s.len(),
{
    if s.len() > 0 {
        lemma_percent_encode_is_ascii(s.skip(1));
    }
}

/// Decoding undoes encoding, whatever the bytes.
pub proof fn lemma_percent_decode_encode(s: Seq<u8>)
    ensures
        percent_decode(percent_encode(s)) == s,
    decreases s.len(),
{
    if s.len() > 0 {
        let b = s[0];
        let tail = percent_encode(s.skip(1));
        let e = encode_byte(b) + tail;
        lemma_percent_decode_encode(s.skip(1));
        if is_unreserved(b) {
            assert(e.skip(1) == tail);
        } else {
            assert(e.skip(3) == tail);
        }
    }
}

/// Decoding a text that was encoded gives the text back, whatever its
/// characters.
pub proof fn lemma_url_decode_encode(s: Seq<char>)
    ensures
        url_decoded(url_encoded(s)) == s,
{
    let bytes = encode_utf8(s);
    let encoded = percent_encode(bytes);
    lemma_percent_encode_is_ascii(bytes);
    lemma_ascii_bytes_text(encoded);
    lemma_percent_decode_encode(bytes);
    vstd::utf8::encode_utf8_valid_utf8(s);
    vstd::utf8::encode_utf8_decode_utf8(s);
}

/// Percent-encodes a byte sequence.
pub fn percent_encode_bytes(bytes: &[u8]) -> (r: Vec<u8>)
    ensures
        r@ == percent_encode(bytes@),
        is_ascii_bytes(r@),
{
    let mut out: Vec<u8> = Vec::new();
    let mut i: usize = 0;
    assert(bytes@.skip(0) == bytes@);
    while i < bytes.len()
        invariant
            i <= bytes.len(),
            out@ + percent_encode(bytes@.skip(i as int)) == percent_encode(bytes@),
        decreases bytes.len() - i,
    {
        let b: u8 = bytes[i];
        assert(bytes@.skip(i as int).skip(1) == bytes@.skip(i + 1));
        if is_unreserved_byte(b) {
            out.push(b);
        } else {
            out.push(PERCENT);
            out.push(upper_hex_digit(b / 16));
            out.push(upper_hex_digit(b % 16));
        }
        i += 1;
    }
    proof {
        lemma_percent_encode_is_ascii(bytes@);
    }
    out
}

/// Percent-decodes a byte sequence.
pub fn percent_decode_bytes(bytes: &[u8]) -> (r: Vec<u8>)
    ensures
        r@ == percent_decode(bytes@),
{
    let mut out: Vec<u8> = Vec::new();
    let mut i: usize = 0;
    assert(bytes@.skip(0) == bytes@);
    while i < bytes.len()
        invariant
            i <= bytes.len(),
            out@ + percent_decode(bytes@.skip(i as int)) == percent_decode(bytes@),
        decreases bytes.len() - i,
    {
        let b: u8 = bytes[i];
        let ghost rest = bytes@.skip(i as int);
        if b == PERCENT && bytes.len() - i > 2 && is_hex_digit_byte(bytes[i + 1])
            && is_hex_digit_byte(bytes[i + 2]) {
            let hi: u8 = hex_digit_value(bytes[i + 1]);
            let lo: u8 = hex_digit_value(bytes[i + 2]);
            out.push(16 * hi + lo);
            assert(rest.skip(3) == bytes@.skip(i + 3));
            i += 3;
        } else {
            out.push(b);
            assert(rest.skip(1) == bytes@.skip(i + 1));
            i += 1;
        }
    }
    out
}

/// Percent-encodes a text for use in a URL.
pub fn urlencode(s: &str) -> (r: String)
    ensures
        r@ == url_encoded(s@),
{
    let encoded = percent_encode_bytes(s.as_bytes());
    ascii_string(encoded.as_slice())
}

/// Percent-decodes a text taken from a URL.
pub fn urldecode(s: &str) -> (r: String)
    ensures
        r@ == url_decoded(s@),
{
    let decoded = percent_decode_bytes(s.as_bytes());
    string_from_bytes(decoded.as_slice())
}

} // verus!
