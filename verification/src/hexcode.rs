//! Hexadecimal text: what it means, and the calls into the `hex` crate.

use vstd::prelude::*;
use vstd::utf8::{encode_utf8, is_ascii_chars, is_ascii_chars_encode_utf8};

verus! {

/// The ASCII code of the lower-case digit for a value below sixteen.
pub open spec fn hex_digit(value: u8) -> u8 {
    if value < 10 {
        (0x30 + value) as u8
    } else {
        (0x61 + (value - 10)) as u8
    }
}

/// The value of one hexadecimal digit given by its ASCII code, in either
/// case; `None` for every other byte.
pub open spec fn hex_value(digit: u8) -> Option<u8> {
    if 0x30 <= digit <= 0x39 {
        Some((digit - 0x30) as u8)
    } else if 0x61 <= digit <= 0x66 {
        Some((digit - 0x61 + 10) as u8)
    } else if 0x41 <= digit <= 0x46 {
        Some((digit - 0x41 + 10) as u8)
    } else {
        None
    }
}

/// Whether `text` is an even number of hexadecimal digits.
pub open spec fn is_hex(text: Seq<u8>) -> bool {
    &&& text.len() % 2 == 0
    &&& forall|i: int| 0 <= i < text.len() ==> (#[trigger] hex_value(text[i])) is Some
}

/// The bytes that the digit pairs of `text` stand for.
pub open spec fn hex_decoded(text: Seq<u8>) -> Seq<u8> {
    Seq::new(
        text.len() / 2,
        |i: int| (hex_value(text[2 * i])->0 * 16 + hex_value(text[2 * i + 1])->0) as u8,
    )
}

/// The lower-case digits of `data`, two for each byte, high half first.
pub open spec fn hex_encoded(data: Seq<u8>) -> Seq<char> {
    Seq::new(
        2 * data.len(),
        |i: int|
            if i % 2 == 0 {
                hex_digit(data[i / 2] / 16) as char
            } else {
                hex_digit(data[i / 2] % 16) as char
            },
    )
}

/// Calls `hex::encode`, which writes each byte as two lower-case digits.
#[verifier::external_body]
pub(crate) fn encode_hex(data: &[u8]) -> (text: String)
    ensures
        text@ == hex_encoded(data@),
{
    hex::encode(data)
}

/// The error of `hex::decode`, carried through unread.
#[verifier::external_type_specification]
#[verifier::external_body]
pub struct ExFromHexError(hex::FromHexError);

/// Calls `hex::decode` on the bytes of a text. It succeeds exactly on an even
/// number of digits `0-9`, `a-f`, `A-F`, and then returns one byte per pair.
#[verifier::external_body]
pub(crate) fn decode_hex(text: &[u8]) -> (r: Result<Vec<u8>, hex::FromHexError>)
    ensures
        r is Ok <==> is_hex(text@),
        r matches Ok(data) ==> data@ == hex_decoded(text@),
{
    hex::decode(text)
}

/// Encoded data is plain ASCII: its UTF-8 bytes are the digits, one byte each.
pub proof fn lemma_hex_encoded_bytes(data: Seq<u8>)
    ensures
        is_ascii_chars(hex_encoded(data)),
        encode_utf8(hex_encoded(data)).len() == 2 * data.len(),
        forall|i: int|
            0 <= i < 2 * data.len() ==> #[trigger] encode_utf8(hex_encoded(data))[i] == hex_digit(
                if i % 2 == 0 {
                    data[i / 2] / 16
                } else {
                    data[i / 2] % 16
                },
            ),
{
    is_ascii_chars_encode_utf8(hex_encoded(data));
}

/// Decoding the text of encoded data gives the data back.
pub proof fn lemma_hex_round_trip(data: Seq<u8>)
    ensures
        is_hex(encode_utf8(hex_encoded(data))),
        hex_decoded(encode_utf8(hex_encoded(data))) == data,
{
    lemma_hex_encoded_bytes(data);
}

} // verus!
