//! Percent-decoding of URI path segments.

use vstd::prelude::*;
use vstd::utf8::{
    decode_utf8, encode_utf8, encode_utf8_decode_utf8, encode_utf8_valid_utf8, is_ascii_chars,
    is_ascii_chars_encode_utf8, valid_utf8,
};

verus! {

/// The byte is the ASCII code of a hexadecimal digit.
pub open spec fn hex_byte(b: u8) -> bool {
    (0x30 <= b && b <= 0x39) || (0x41 <= b && b <= 0x46) || (0x61 <= b && b <= 0x66)
}

/// The number that the hexadecimal digit with ASCII code `b` denotes.
pub open spec fn hex_byte_value(b: u8) -> int {
    if 0x30 <= b && b <= 0x39 {
        b - 0x30
    } else if 0x41 <= b && b <= 0x46 {
        b - 0x41 + 10
    } else {
        b - 0x61 + 10
    }
}

/// The bytes that percent-decoding makes of `bytes`: each percent sign that
/// two hexadecimal digits follow stands, with them, for the one byte that
/// the digits denote; every other byte stands for itself.
pub open spec fn percent_decoded_bytes(bytes: Seq<u8>) -> Seq<u8>
    decreases bytes.len(),
{
    if bytes.len() == 0 {
        bytes
    } else if bytes[0] == 0x25 && bytes.len() >= 3 && hex_byte(bytes[1]) && hex_byte(bytes[2]) {
        seq![(hex_byte_value(bytes[1]) * 16 + hex_byte_value(bytes[2])) as u8]
            + percent_decoded_bytes(bytes.skip(3))
    } else {
        seq![bytes[0]] + percent_decoded_bytes(bytes.skip(1))
    }
}

/// The text that percent-decoding makes of `text`, where the decoded bytes
/// are well-formed UTF-8.
pub open spec fn percent_decoded(text: Seq<char>) -> Option<Seq<char>> {
    let bytes = percent_decoded_bytes(encode_utf8(text));
    if valid_utf8(bytes) {
        Some(decode_utf8(bytes))
    } else {
        None
    }
}

/// Bytes without a percent sign decode to themselves.
pub proof fn lemma_bytes_without_percent(bytes: Seq<u8>)
    requires
        forall|i: int| 0 <= i < bytes.len() ==> bytes[i] != 0x25,
    ensures
        percent_decoded_bytes(bytes) == bytes,
    decreases bytes.len(),
{
    if bytes.len() > 0 {
        lemma_bytes_without_percent(bytes.skip(1));
        assert(seq![bytes[0]] + bytes.skip(1) == bytes);
    }
}

/// ASCII text without a percent sign decodes to itself: a module or a
/// generation that is named in plain characters is captured as it is
/// written.
pub proof fn lemma_plain_text_decodes_to_itself(text: Seq<char>)
    requires
        is_ascii_chars(text),
        forall|i: int| 0 <= i < text.len() ==> text[i] != '%',
    ensures
        percent_decoded(text) == Some(text),
{
    let bytes = encode_utf8(text);
    is_ascii_chars_encode_utf8(text);
    assert forall|i: int| 0 <= i < bytes.len() implies bytes[i] != 0x25 by {
        assert(text[i] as u8 == bytes[i]);
    }
    lemma_bytes_without_percent(bytes);
    encode_utf8_valid_utf8(text);
    encode_utf8_decode_utf8(text);
}

/// `percent_encoding::percent_decode_str` followed by `decode_utf8`: the
/// UTF-8 bytes of the text are percent-decoded, and the result is the text
/// that the decoded bytes encode, or nothing where they are not well-formed
/// UTF-8.
#[verifier::external_body]
pub(crate) fn percent_decode_utf8(text: &str) -> (r: Option<String>)
    ensures
        match percent_decoded(text@) {
            Some(decoded) => r matches Some(s) && s@ == decoded,
            None => r is None,
        },
{
    match percent_encoding::percent_decode_str(text).decode_utf8() {
        Ok(decoded) => Some(decoded.into_owned()),
        Err(_) => None,
    }
}

} // verus!
