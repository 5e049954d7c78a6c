//! Hexadecimal and base64 text encodings of byte strings, as the `hex` and
//! `base64` crates produce them.

use base64::Engine;
use vstd::prelude::*;

verus! {

/// The sixteen lowercase hexadecimal digits, in order of value.
pub open spec fn hex_alphabet() -> Seq<char> {
    seq!['0', '1', '2', '3', '4', '5', '6', '7', '8', '9', 'a', 'b', 'c', 'd', 'e', 'f']
}

/// A lowercase hexadecimal digit.
pub open spec fn is_lower_hex_char(c: char) -> bool {
    ('0' <= c && c <= '9') || ('a' <= c && c <= 'f')
}

/// Every character of `s` is a lowercase hexadecimal digit.
pub open spec fn is_lower_hex_text(s: Seq<char>) -> bool {
    forall|i: int| 0 <= i < s.len() ==> #[trigger] is_lower_hex_char(s[i])
}

/// Lowercase hexadecimal text of a byte string: two digits per byte, the high
/// nibble first.
pub open spec fn hex_lower(bytes: Seq<u8>) -> Seq<char> {
    Seq::new(
        2 * bytes.len(),
        |i: int|
            if i % 2 == 0 {
                hex_alphabet()[bytes[i / 2] as int / 16]
            } else {
                hex_alphabet()[bytes[i / 2] as int % 16]
            },
    )
}

/// An ASCII byte that `hex::decode` accepts as a digit, in either case.
pub open spec fn is_hex_byte(b: u8) -> bool {
    (48 <= b && b <= 57) || (97 <= b && b <= 102) || (65 <= b && b <= 70)
}

/// The value of a hexadecimal digit byte.
pub open spec fn hex_nibble(b: u8) -> int {
    if b <= 57 {
        b - 48
    } else if b <= 70 {
        b - 55
    } else {
        b - 87
    }
}

/// The bytes that `hex::decode` accepts: an even number of hexadecimal digits.
pub open spec fn hex_decodable(text: Seq<u8>) -> bool {
    &&& text.len() % 2 == 0
    &&& forall|i: int| 0 <= i < text.len() ==> #[trigger] is_hex_byte(text[i])
}

/// The bytes that a hexadecimal text stands for, two digits per byte.
pub open spec fn hex_decoded(text: Seq<u8>) -> Seq<u8> {
    Seq::new(
        text.len() / 2,
        |i: int| (hex_nibble(text[2 * i]) * 16 + hex_nibble(text[2 * i + 1])) as u8,
    )
}

/// The base64 alphabet of RFC 4648 (standard, not URL-safe), in order of value.
pub open spec fn base64_alphabet() -> Seq<char> {
    seq![
        'A', 'B', 'C', 'D', 'E', 'F', 'G', 'H', 'I', 'J', 'K', 'L', 'M', 'N', 'O', 'P',
        'Q', 'R', 'S', 'T', 'U', 'V', 'W', 'X', 'Y', 'Z', 'a', 'b', 'c', 'd', 'e', 'f',
        'g', 'h', 'i', 'j', 'k', 'l', 'm', 'n', 'o', 'p', 'q', 'r', 's', 't', 'u', 'v',
        'w', 'x', 'y', 'z', '0', '1', '2', '3', '4', '5', '6', '7', '8', '9', '+', '/',
    ]
}

/// Length of the padded base64 text of `n` bytes: four characters per
/// started group of three bytes.
pub open spec fn base64_len(n: nat) -> nat {
    4 * ((n + 2) / 3)
}

/// The byte at `i`, or zero past the end.
pub open spec fn byte_or_zero(bytes: Seq<u8>, i: int) -> int {
    if i < bytes.len() {
        bytes[i] as int
    } else {
        0
    }
}

/// Padded standard base64 (RFC 4648): each group of three bytes is read as a
/// 24-bit number and written as four 6-bit digits; a last group of one or two
/// bytes is filled with zero bits and the missing digits are written as `=`.
pub open spec fn base64_standard(bytes: Seq<u8>) -> Seq<char> {
    Seq::new(
        base64_len(bytes.len()),
        |i: int|
            {
                let g = i / 4;
                let p = i % 4;
                let word = byte_or_zero(bytes, 3 * g) * 65536 + byte_or_zero(bytes, 3 * g + 1) * 256
                    + byte_or_zero(bytes, 3 * g + 2);
                if 3 * g + p > bytes.len() {
                    '='
                } else if p == 0 {
                    base64_alphabet()[(word / 262144) % 64]
                } else if p == 1 {
                    base64_alphabet()[(word / 4096) % 64]
                } else if p == 2 {
                    base64_alphabet()[(word / 64) % 64]
                } else {
                    base64_alphabet()[word % 64]
                }
            },
    )
}

/// `hex::encode`: lowercase hexadecimal text, two digits per byte, high
/// nibble first (the crate's documentation and source say exactly this).
#[verifier::external_body]
pub(crate) fn hex_encode(bytes: &[u8]) -> (text: String)
    ensures
        text@ == hex_lower(bytes@),
{
    hex::encode(bytes)
}

/// `hex::FromHexError`, the error of `hex::decode`.
#[verifier::external_type_specification]
#[verifier::external_body]
pub struct ExFromHexError(hex::FromHexError);

/// `hex::decode`: succeeds exactly on an even number of hexadecimal digits
/// (either case) and gives the bytes they stand for. Which error value comes
/// back on a failure (odd length, or the first bad digit) is left unsaid.
#[verifier::external_body]
pub(crate) fn hex_decode(text: &[u8]) -> (r: Result<Vec<u8>, hex::FromHexError>)
    ensures
        r is Ok <==> hex_decodable(text@),
        r matches Ok(bytes) ==> bytes@ == hex_decoded(text@),
{
    hex::decode(text)
}

/// `base64::engine::general_purpose::STANDARD.encode`: padded base64 with the
/// standard alphabet. The engine panics when the output length overflows a
/// `usize`, which the bound on the input rules out.
#[verifier::external_body]
pub(crate) fn base64_encode(bytes: &[u8]) -> (text: String)
    requires
        bytes@.len() <= usize::MAX / 2,
    ensures
        text@ == base64_standard(bytes@),
{
    base64::engine::general_purpose::STANDARD.encode(bytes)
}

/// Hexadecimal text is lowercase hexadecimal, twice as long as its bytes.
pub proof fn lemma_hex_lower_shape(bytes: Seq<u8>)
    ensures
        hex_lower(bytes).len() == 2 * bytes.len(),
        is_lower_hex_text(hex_lower(bytes)),
{
    assert forall|i: int| 0 <= i < hex_lower(bytes).len() implies #[trigger] is_lower_hex_char(
        hex_lower(bytes)[i],
    ) by {
        let b = bytes[i / 2];
        let n: int = if i % 2 == 0 { b as int / 16 } else { b as int % 16 };
        assert(0 <= n < 16);
        assert(hex_lower(bytes)[i] == hex_alphabet()[n]);
        lemma_hex_alphabet_digit(n);
    }
}

/// Each entry of the hexadecimal alphabet is a lowercase digit, as an ASCII
/// byte is a digit of `hex::decode`, and has its own position as value.
pub proof fn lemma_hex_alphabet_digit(n: int)
    requires
        0 <= n < 16,
    ensures
        is_lower_hex_char(hex_alphabet()[n]),
        '\0' <= hex_alphabet()[n] <= '\u{7f}',
        is_hex_byte(hex_alphabet()[n] as u8),
        hex_nibble(hex_alphabet()[n] as u8) == n,
{
    let a = hex_alphabet();
    if n == 0 { assert(a[0] == '0'); }
    else if n == 1 { assert(a[1] == '1'); }
    else if n == 2 { assert(a[2] == '2'); }
    else if n == 3 { assert(a[3] == '3'); }
    else if n == 4 { assert(a[4] == '4'); }
    else if n == 5 { assert(a[5] == '5'); }
    else if n == 6 { assert(a[6] == '6'); }
    else if n == 7 { assert(a[7] == '7'); }
    else if n == 8 { assert(a[8] == '8'); }
    else if n == 9 { assert(a[9] == '9'); }
    else if n == 10 { assert(a[10] == 'a'); }
    else if n == 11 { assert(a[11] == 'b'); }
    else if n == 12 { assert(a[12] == 'c'); }
    else if n == 13 { assert(a[13] == 'd'); }
    else if n == 14 { assert(a[14] == 'e'); }
    else { assert(a[15] == 'f'); }
}

/// Decoding the hexadecimal text of a byte string gives the byte string back:
/// the text is ASCII, so its UTF-8 bytes are its characters, and
/// `hex::decode` accepts them.
pub proof fn lemma_hex_roundtrip(bytes: Seq<u8>)
    ensures
        vstd::utf8::is_ascii_chars(hex_lower(bytes)),
        hex_decodable(vstd::utf8::encode_utf8(hex_lower(bytes))),
        hex_decoded(vstd::utf8::encode_utf8(hex_lower(bytes))) == bytes,
{
    let t = hex_lower(bytes);
    assert forall|i: int| 0 <= i < t.len() implies '\0' <= #[trigger] t[i] <= '\u{7f}' && is_hex_byte(t[i] as u8)
        && hex_nibble(t[i] as u8) == (if i % 2 == 0 { bytes[i / 2] as int / 16 } else { bytes[i / 2] as int % 16 }) by {
        let b = bytes[i / 2];
        let n: int = if i % 2 == 0 { b as int / 16 } else { b as int % 16 };
        lemma_hex_alphabet_digit(n);
    }
    assert(vstd::utf8::is_ascii_chars(t));
    vstd::utf8::is_ascii_chars_encode_utf8(t);
    let e = vstd::utf8::encode_utf8(t);
    assert forall|i: int| 0 <= i < e.len() implies #[trigger] is_hex_byte(e[i]) by {
        assert(t[i] as u8 == e[i]);
    }
    assert forall|j: int| 0 <= j < bytes.len() implies #[trigger] hex_decoded(e)[j] == bytes[j] by {
        assert(t[2 * j] as u8 == e[2 * j]);
        assert(t[2 * j + 1] as u8 == e[2 * j + 1]);
        assert((2 * j) / 2 == j);
        assert((2 * j + 1) / 2 == j);
        assert((2 * j) % 2 == 0);
        assert((2 * j + 1) % 2 == 1);
        let b = bytes[j];
        assert(b / 16 * 16 + b % 16 == b);
    }
    assert(hex_decoded(e) =~= bytes);
}

} // verus!
