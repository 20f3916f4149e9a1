use crate::error::ErrorKind;
use vstd::prelude::*;

verus! {

/// Whether `c` is a hexadecimal digit, in either case.
pub open spec fn is_hex_digit(c: char) -> bool {
    ('0' <= c <= '9') || ('a' <= c <= 'f') || ('A' <= c <= 'F')
}

/// The value of the hexadecimal digit `c`.
pub open spec fn hex_value(c: char) -> nat
    recommends
        is_hex_digit(c),
{
    if '0' <= c <= '9' {
        (c as u32 - 48) as nat
    } else if 'a' <= c <= 'f' {
        (c as u32 - 97 + 10) as nat
    } else {
        (c as u32 - 65 + 10) as nat
    }
}

/// Whether `s` is an even number of hexadecimal digits.
pub open spec fn is_hex_text(s: Seq<char>) -> bool {
    &&& s.len() % 2 == 0
    &&& forall|i: int| 0 <= i < s.len() ==> is_hex_digit(#[trigger] s[i])
}

/// The bytes that the hexadecimal text `s` denotes: one for each pair of
/// digits, the first digit of a pair being the high half.
pub open spec fn hex_bytes(s: Seq<char>) -> Seq<u8>
    recommends
        is_hex_text(s),
{
    Seq::new(s.len() / 2, |i: int| (16 * hex_value(s[2 * i]) + hex_value(s[2 * i + 1])) as u8)
}

/// `hex::FromHexError`, the reason why a text did not decode. Nothing is
/// read from it.
#[verifier::external_type_specification]
#[verifier::external_body]
pub struct ExFromHexError(hex::FromHexError);

/// `hex::decode` on a string slice. The contract claims that decoding
/// succeeds exactly on an even number of hexadecimal digits, upper or lower
/// case, and that each pair of digits then gives one byte, high half first.
#[verifier::external_body]
fn hex_decode(text: &str) -> (r: Result<Vec<u8>, hex::FromHexError>)
    ensures
        r is Ok <==> is_hex_text(text@),
        r matches Ok(bytes) ==> bytes@ == hex_bytes(text@),
{
    hex::decode(text)
}

/// Decodes hexadecimal text into bytes. Text that is not an even number of
/// hexadecimal digits is a field that does not decode.
pub fn decode_hex(text: &str) -> (r: Result<Vec<u8>, ErrorKind>)
    ensures
        r is Ok <==> is_hex_text(text@),
        r matches Ok(bytes) ==> bytes@ == hex_bytes(text@),
        r matches Err(kind) ==> kind == ErrorKind::FieldDecode,
{
    match hex_decode(text) {
        Ok(bytes) => Ok(bytes),
        Err(_) => Err(ErrorKind::FieldDecode),
    }
}

} // verus!
