//! Percent-encoding of path segments and query components.
//!
//! Path and query parameters are encoded so that characters such as `/`, `?`,
//! `#` and `&` cannot change the shape of a request URL.

use percent_encoding::{utf8_percent_encode, NON_ALPHANUMERIC};
use vstd::prelude::*;

verus! {

/// An ASCII letter or digit, given as a byte.
pub open spec fn is_alnum_byte(b: u8) -> bool {
    (0x30 <= b <= 0x39) || (0x41 <= b <= 0x5A) || (0x61 <= b <= 0x7A)
}

/// An ASCII letter or digit, given as a character.
pub open spec fn is_alnum_char(c: char) -> bool {
    ('0' <= c <= '9') || ('A' <= c <= 'Z') || ('a' <= c <= 'z')
}

/// The upper-case hexadecimal digit for `n < 16`.
pub open spec fn hex_upper(n: u8) -> char {
    if n < 10 {
        (0x30 + n) as char
    } else {
        (0x37 + n) as char
    }
}

/// The percent-encoding of one byte: ASCII letters and digits stand for
/// themselves, every other byte becomes `%` and two upper-case hex digits.
pub open spec fn encode_byte(b: u8) -> Seq<char> {
    if is_alnum_byte(b) {
        seq![b as char]
    } else {
        seq!['%', hex_upper(b / 16), hex_upper(b % 16)]
    }
}

/// The percent-encoding of a byte sequence, byte by byte.
pub open spec fn encode_bytes(bytes: Seq<u8>) -> Seq<char>
    decreases bytes.len(),
{
    if bytes.len() == 0 {
        seq![]
    } else {
        encode_byte(bytes[0]) + encode_bytes(bytes.drop_first())
    }
}

/// The percent-encoding of the UTF-8 bytes of a string.
pub open spec fn encode_str(s: Seq<char>) -> Seq<char> {
    encode_bytes(vstd::utf8::encode_utf8(s))
}

/// A character that may stand in an encoded component: an ASCII letter or
/// digit, or `%`.
pub open spec fn is_encoded_char(c: char) -> bool {
    is_alnum_char(c) || c == '%'
}

/// Encodes `value` with `percent_encoding::utf8_percent_encode` and the
/// `NON_ALPHANUMERIC` set, rendered through `Display`.
///
/// Trusted: the crate's source keeps ASCII letters and digits and writes every
/// other byte of the UTF-8 encoding (ASCII controls and punctuation, which the
/// set lists, and all non-ASCII bytes) as `%XX` with upper-case hex digits;
/// the contract states exactly that.
#[verifier::external_body]
fn percent_encode_non_alphanumeric(value: &str) -> (res: String)
    ensures
        res@ == encode_str(value@),
{
    utf8_percent_encode(value, NON_ALPHANUMERIC).to_string()
}

/// Percent-encodes a value that fills a placeholder of a path template.
pub fn encode_path_segment(value: &str) -> (res: String)
    ensures
        res@ == encode_str(value@),
{
    percent_encode_non_alphanumeric(value)
}

/// Percent-encodes a query key or value.
pub fn encode_query_component(value: &str) -> (res: String)
    ensures
        res@ == encode_str(value@),
{
    percent_encode_non_alphanumeric(value)
}

proof fn lemma_hex_upper_is_alnum(n: u8)
    requires
        n < 16,
    ensures
        is_alnum_char(hex_upper(n)),
{
}

/// Every character of an encoding is an ASCII letter, an ASCII digit or `%`:
/// no `/`, `?`, `#`, `&` or `=` survives encoding.
pub proof fn lemma_encoded_chars_are_safe(bytes: Seq<u8>)
    ensures
        forall|i: int| 0 <= i < encode_bytes(bytes).len() ==> is_encoded_char(
            #[trigger] encode_bytes(bytes)[i],
        ),
    decreases bytes.len(),
{
    if bytes.len() > 0 {
        lemma_encoded_chars_are_safe(bytes.drop_first());
        let b = bytes[0];
        lemma_hex_upper_is_alnum(b / 16);
        lemma_hex_upper_is_alnum(b % 16);
        let head = encode_byte(b);
        let tail = encode_bytes(bytes.drop_first());
        assert forall|i: int| 0 <= i < encode_bytes(bytes).len() implies is_encoded_char(
            #[trigger] encode_bytes(bytes)[i],
        ) by {
            if i < head.len() {
                assert(encode_bytes(bytes)[i] == head[i]);
            } else {
                assert(encode_bytes(bytes)[i] == tail[i - head.len()]);
            }
        }
    }
}

/// Encoding distributes over concatenation of the input bytes.
pub proof fn lemma_encode_bytes_append(a: Seq<u8>, b: Seq<u8>)
    ensures
        encode_bytes(a + b) == encode_bytes(a) + encode_bytes(b),
    decreases a.len(),
{
    if a.len() == 0 {
        assert(a + b =~= b);
    } else {
        assert((a + b).drop_first() =~= a.drop_first() + b);
        lemma_encode_bytes_append(a.drop_first(), b);
        assert(encode_bytes(a + b) =~= encode_bytes(a) + encode_bytes(b));
    }
}

/// A string made only of ASCII letters and digits is left as it is.
pub proof fn law_alphanumerics_unchanged(s: Seq<char>)
    requires
        forall|i: int| 0 <= i < s.len() ==> is_alnum_char(#[trigger] s[i]),
    ensures
        encode_str(s) == s,
    decreases s.len(),
{
    if s.len() > 0 {
        let rest = s.drop_first();
        assert forall|i: int| 0 <= i < rest.len() implies is_alnum_char(#[trigger] rest[i]) by {
            assert(rest[i] == s[i + 1]);
        }
        law_alphanumerics_unchanged(rest);
        let c = s[0];
        assert(is_alnum_char(c));
        assert(vstd::utf8::encode_utf8(s) == vstd::utf8::encode_scalar(c as u32) + vstd::utf8::encode_utf8(rest));
        assert(vstd::utf8::has_width_1_encoding(c as u32));
        let v = c as u32;
        let b = v as u8;
        assert(((v & 0x7F) as u8) == b) by (bit_vector)
            requires
                v <= 0x7F,
                b == v as u8,
        ;
        assert(b as u32 == v) by (bit_vector)
            requires
                v <= 0x7F,
                b == v as u8,
        ;
        assert(vstd::utf8::encode_scalar(v) == seq![b]);
        assert(b as char == c);
        assert(is_alnum_byte(b));
        lemma_encode_bytes_append(seq![b], vstd::utf8::encode_utf8(rest));
        assert(seq![b].drop_first() =~= Seq::<u8>::empty());
        assert(seq![b][0] == b);
        assert(encode_byte(b) == seq![c]);
        assert(encode_bytes(Seq::<u8>::empty()) =~= Seq::<char>::empty());
        assert(encode_bytes(seq![b]) =~= seq![c]);
        assert(s =~= seq![c] + rest);
    }
}

} // verus!
