//! Text encodings used by the signed redirect parameters and by the
//! `Basic` authorization scheme: hexadecimal, percent-encoding, Base64.

use vstd::prelude::*;

verus! {

/// The characters of a text given by its bytes, one character for each
/// byte. It is meant for ASCII bytes, where it is the text's decoding.
pub open spec fn ascii_text(bytes: Seq<u8>) -> Seq<char> {
    Seq::new(bytes.len(), |i: int| bytes[i] as char)
}

/// Whether every byte of `bytes` is ASCII.
pub open spec fn is_ascii_bytes(bytes: Seq<u8>) -> bool {
    forall|i: int| 0 <= i < bytes.len() ==> #[trigger] bytes[i] < 0x80
}

/// The UTF-8 encoding of the text of ASCII bytes is those bytes.
pub proof fn ascii_text_encoding(bytes: Seq<u8>)
    requires
        is_ascii_bytes(bytes),
    ensures
        vstd::utf8::is_ascii_chars(ascii_text(bytes)),
        vstd::utf8::encode_utf8(ascii_text(bytes)) == bytes,
{
    let chars = ascii_text(bytes);
    assert forall|i: int| 0 <= i < chars.len() implies '\0' <= #[trigger] chars[i] <= '\u{7f}' by {
        assert(bytes[i] < 0x80);
    }
    vstd::utf8::is_ascii_chars_encode_utf8(chars);
    assert forall|i: int| 0 <= i < bytes.len() implies vstd::utf8::encode_utf8(chars)[i]
        == bytes[i] by {
        assert(bytes[i] < 0x80);
        assert(chars[i] as u8 == vstd::utf8::encode_utf8(chars)[i]);
        assert((bytes[i] as char) as u8 == bytes[i]);
    }
    assert(vstd::utf8::encode_utf8(chars) =~= bytes);
}

/// Whether `b` is an ASCII hexadecimal digit, in either case.
pub open spec fn is_hex_digit(b: u8) -> bool {
    (0x30 <= b <= 0x39) || (0x41 <= b <= 0x46) || (0x61 <= b <= 0x66)
}

/// The value of the hexadecimal digit `b`; zero for any other byte.
pub open spec fn hex_digit_value(b: u8) -> int {
    if 0x30 <= b <= 0x39 {
        b - 0x30
    } else if 0x41 <= b <= 0x46 {
        b - 0x41 + 10
    } else if 0x61 <= b <= 0x66 {
        b - 0x61 + 10
    } else {
        0
    }
}

/// The lower-case hexadecimal digit for a value below sixteen.
pub open spec fn hex_digit_lower(v: int) -> u8 {
    if 0 <= v < 10 {
        (0x30 + v) as u8
    } else {
        (0x61 + v - 10) as u8
    }
}

/// Whether `text` is a well-formed hexadecimal string: an even number of
/// bytes, each a hexadecimal digit.
pub open spec fn is_hex_text(text: Seq<u8>) -> bool {
    &&& text.len() % 2 == 0
    &&& forall|i: int| 0 <= i < text.len() ==> is_hex_digit(#[trigger] text[i])
}

/// The bytes that a well-formed hexadecimal string stands for.
pub open spec fn hex_bytes(text: Seq<u8>) -> Seq<u8> {
    Seq::new(
        text.len() / 2,
        |i: int| (16 * hex_digit_value(text[2 * i]) + hex_digit_value(text[2 * i + 1])) as u8,
    )
}

/// Decoding of a hexadecimal string: `None` unless it is well formed.
pub open spec fn hex_decoded(text: Seq<u8>) -> Option<Seq<u8>> {
    if is_hex_text(text) {
        Some(hex_bytes(text))
    } else {
        None
    }
}

/// The lower-case hexadecimal text of `data`, two digits for each byte.
pub open spec fn hex_text(data: Seq<u8>) -> Seq<u8> {
    Seq::new(
        2 * data.len(),
        |i: int|
            if i % 2 == 0 {
                hex_digit_lower(data[i / 2] as int / 16)
            } else {
                hex_digit_lower(data[i / 2] as int % 16)
            },
    )
}

/// Calls `hex::decode`. The crate rejects input of odd length and input
/// holding a byte that is no hexadecimal digit; otherwise each pair of
/// digits, upper or lower case, gives one byte, high digit first.
#[verifier::external_body]
pub(crate) fn hex_decode(text: &[u8]) -> (decoded: Option<Vec<u8>>)
    ensures
        decoded is Some <==> hex_decoded(text@) is Some,
        decoded matches Some(bytes) ==> bytes@ == hex_decoded(text@)->Some_0,
{
    hex::decode(text).ok()
}

/// Calls `hex::encode`, which writes each byte as two lower-case
/// hexadecimal digits, high digit first.
#[verifier::external_body]
pub(crate) fn hex_encode(data: &[u8]) -> (text: String)
    ensures
        text@ == ascii_text(hex_text(data@)),
{
    hex::encode(data)
}

/// Decoding the hexadecimal text of any bytes gives those bytes back.
pub proof fn hex_round_trip(data: Seq<u8>)
    ensures
        hex_decoded(hex_text(data)) == Some(data),
{
    let text = hex_text(data);
    assert forall|i: int| 0 <= i < text.len() implies is_hex_digit(#[trigger] text[i]) by {
        let v = data[i / 2] as int;
        assert(0 <= v / 16 < 16 && 0 <= v % 16 < 16);
    }
    assert(text.len() % 2 == 0);
    assert forall|i: int| 0 <= i < data.len() implies hex_bytes(text)[i] == data[i] by {
        let v = data[i] as int;
        assert((2 * i) / 2 == i && (2 * i + 1) / 2 == i);
        assert((2 * i) % 2 == 0 && (2 * i + 1) % 2 == 1);
        assert(0 <= v / 16 < 16 && 0 <= v % 16 < 16);
        assert(hex_digit_value(hex_digit_lower(v / 16)) == v / 16);
        assert(hex_digit_value(hex_digit_lower(v % 16)) == v % 16);
        assert(16 * (v / 16) + v % 16 == v);
    }
    assert(hex_bytes(text) =~= data);
}

/// Whether `b` is written as it stands by percent-encoding: an ASCII
/// letter or digit, or one of `-`, `.`, `_`, `~`.
pub open spec fn is_unreserved(b: u8) -> bool {
    ||| 0x30 <= b <= 0x39
    ||| 0x41 <= b <= 0x5a
    ||| 0x61 <= b <= 0x7a
    ||| b == 0x2d
    ||| b == 0x2e
    ||| b == 0x5f
    ||| b == 0x7e
}

/// The upper-case hexadecimal digit for a value below sixteen.
pub open spec fn hex_digit_upper(v: int) -> u8 {
    if 0 <= v < 10 {
        (0x30 + v) as u8
    } else {
        (0x41 + v - 10) as u8
    }
}

/// The percent-encoding of one byte: the byte itself where it is
/// unreserved, else `%` and its two upper-case hexadecimal digits.
pub open spec fn percent_encoded_byte(b: u8) -> Seq<u8> {
    if is_unreserved(b) {
        seq![b]
    } else {
        seq![0x25u8, hex_digit_upper(b as int / 16), hex_digit_upper(b as int % 16)]
    }
}

/// The percent-encoding of `data`, byte by byte.
pub open spec fn percent_encoded(data: Seq<u8>) -> Seq<u8>
    decreases data.len(),
{
    if data.len() == 0 {
        Seq::empty()
    } else {
        percent_encoded(data.drop_last()) + percent_encoded_byte(data.last())
    }
}

/// Calls `urlencoding::encode`, which percent-encodes the UTF-8 bytes of
/// the text: every byte but ASCII letters, digits and `-`, `.`, `_`, `~`
/// becomes `%` followed by two upper-case hexadecimal digits.
#[verifier::external_body]
pub(crate) fn percent_encode(text: &str) -> (encoded: String)
    ensures
        encoded@ == ascii_text(percent_encoded(vstd::utf8::encode_utf8(text@))),
{
    urlencoding::encode(text).into_owned()
}

/// What the standard Base64 alphabet with canonical padding decodes
/// `text` to, or `None` where `text` is no such encoding.
pub uninterp spec fn base64_decoded(text: Seq<u8>) -> Option<Seq<u8>>;

/// Calls `decode` of `base64::engine::general_purpose::STANDARD`. The
/// result is a function of the input alone.
#[verifier::external_body]
pub(crate) fn base64_decode(text: &[u8]) -> (decoded: Option<Vec<u8>>)
    ensures
        decoded is Some <==> base64_decoded(text@) is Some,
        decoded matches Some(bytes) ==> bytes@ == base64_decoded(text@)->Some_0,
{
    base64::Engine::decode(&base64::engine::general_purpose::STANDARD, text).ok()
}

} // verus!
