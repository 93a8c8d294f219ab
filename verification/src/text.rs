//! The text of a source descriptor. On the wire it is a run of bytes closed by
//! a terminator; in memory it is a `String`, whose bytes are UTF-8.
use crate::error::{PduError, PduResult};
use vstd::prelude::*;
use vstd::slice::slice_to_vec;
use vstd::utf8::{decode_utf8, encode_utf8, encode_utf8_decode_utf8, valid_utf8};

verus! {

/// The byte that closes a source descriptor on the wire.
pub const NULL_TERMINATOR: u8 = 0;

/// `std::string::FromUtf8Error`, which `String::from_utf8` returns for bytes
/// that are no text. Nothing here looks into it.
#[verifier::external_type_specification]
#[verifier::external_body]
pub struct ExFromUtf8Error(std::string::FromUtf8Error);

/// `String::from_utf8`. Trusted, not proved: the call succeeds exactly on valid
/// UTF-8, and the string that it returns is made of the very bytes it was given.
#[verifier::external_body]
fn string_from_utf8(bytes: Vec<u8>) -> (res: Result<String, std::string::FromUtf8Error>)
    ensures
        res is Ok <==> valid_utf8(bytes@),
        res matches Ok(text) ==> encode_utf8(text@) == bytes@,
{
    String::from_utf8(bytes)
}

/// The bytes of the text in a descriptor field: the field without its last
/// byte, which is the terminator. An empty field holds the empty text.
pub open spec fn text_bytes(field: Seq<u8>) -> Seq<u8> {
    if field.len() > 0 {
        field.drop_last()
    } else {
        field
    }
}

/// The bytes of a descriptor field that holds `text`.
pub open spec fn field_bytes(text: Seq<char>) -> Seq<u8> {
    encode_utf8(text).push(NULL_TERMINATOR)
}

/// Takes the text out of a descriptor field. It fails with
/// [`PduError::InvalidText`] exactly when the bytes before the terminator are
/// not valid text.
pub fn decode_string(field: &[u8]) -> (res: PduResult<String>)
    ensures
        match res {
            Ok(text) => valid_utf8(text_bytes(field@)) && text@ == decode_utf8(
                text_bytes(field@),
            ),
            Err(e) => !valid_utf8(text_bytes(field@)) && e == PduError::InvalidText,
        },
{
    let n: usize = field.len();
    let end: usize = if n > 0 {
        n - 1
    } else {
        0
    };
    let bytes = slice_to_vec(&field[0..end]);
    match string_from_utf8(bytes) {
        Ok(text) => {
            proof {
                encode_utf8_decode_utf8(text@);
            }
            Ok(text)
        },
        Err(_) => Err(PduError::InvalidText),
    }
}

/// A descriptor field gives back the text that it was made from.
pub proof fn text_round_trip(text: Seq<char>)
    ensures
        valid_utf8(text_bytes(field_bytes(text))),
        decode_utf8(text_bytes(field_bytes(text))) == text,
{
    assert(text_bytes(field_bytes(text)) =~= encode_utf8(text));
    vstd::utf8::encode_utf8_valid_utf8(text);
    encode_utf8_decode_utf8(text);
}

} // verus!
