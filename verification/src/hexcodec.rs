use vstd::prelude::*;

use crate::errors::OtpError;

verus! {

/// A byte is an ASCII hexadecimal digit: `0-9`, `A-F` or `a-f`.
pub open spec fn is_hex_digit(b: u8) -> bool {
    (48 <= b <= 57) || (65 <= b <= 70) || (97 <= b <= 102)
}

/// True when every byte of `s` is an ASCII hexadecimal digit.
pub open spec fn all_hex_digits(s: Seq<u8>) -> bool {
    forall|i: int| 0 <= i < s.len() ==> is_hex_digit(s[i])
}

/// The numeric value of one hexadecimal digit.
pub open spec fn hex_digit_val(b: u8) -> u8
    recommends
        is_hex_digit(b),
{
    if 48 <= b <= 57 {
        (b - 48) as u8
    } else if 65 <= b <= 70 {
        (b - 55) as u8
    } else {
        (b - 87) as u8
    }
}

/// The bytes denoted by a hexadecimal text: each pair of digits, high nibble
/// first, yields one byte.
pub open spec fn hex_decoded(s: Seq<u8>) -> Seq<u8>
    recommends
        s.len() % 2 == 0,
        all_hex_digits(s),
{
    Seq::new(s.len() / 2, |i: int| (hex_digit_val(s[2 * i]) * 16 + hex_digit_val(s[2 * i + 1])) as u8)
}

/// The lowercase hexadecimal digit for a value below 16.
pub open spec fn hex_digit_char(d: u8) -> char
    recommends
        d < 16,
{
    if d < 10 {
        ((48 + d) as u8) as char
    } else {
        ((87 + d) as u8) as char
    }
}

/// The lowercase hexadecimal text denoting `b`: two digits for each byte,
/// high nibble first.
pub open spec fn hex_encoded(b: Seq<u8>) -> Seq<char> {
    Seq::new(
        b.len() * 2,
        |i: int| if i % 2 == 0 {
            hex_digit_char(b[i / 2] / 16)
        } else {
            hex_digit_char(b[i / 2] % 16)
        },
    )
}

/// A character is a lowercase ASCII hexadecimal digit.
pub open spec fn is_hex_digit_char(c: char) -> bool {
    (48 <= c as u32 <= 57) || (97 <= c as u32 <= 102)
}

/// Every character of a hexadecimal encoding is a lowercase hex digit.
pub proof fn lemma_hex_encoded_chars(b: Seq<u8>)
    ensures
        hex_encoded(b).len() == 2 * b.len(),
        forall|i: int| 0 <= i < hex_encoded(b).len() ==> is_hex_digit_char(#[trigger] hex_encoded(b)[i]),
{
    assert forall|i: int| 0 <= i < hex_encoded(b).len() implies is_hex_digit_char(
        #[trigger] hex_encoded(b)[i],
    ) by {
        let d = if i % 2 == 0 {
            b[i / 2] / 16
        } else {
            b[i / 2] % 16
        };
        assert(d < 16);
        assert(hex_encoded(b)[i] == hex_digit_char(d));
    }
}

/// Relies on hex::decode: it succeeds exactly on even-length input made of
/// hexadecimal digits, and maps each pair of digits to one byte, high nibble
/// first.
#[verifier::external_body]
fn hex_decode_bytes(s: &[u8]) -> (r: Result<Vec<u8>, ()>)
    ensures
        r is Ok <==> (s@.len() % 2 == 0 && all_hex_digits(s@)),
        r matches Ok(v) ==> v@ == hex_decoded(s@),
{
    match hex::decode(s) {
        Ok(v) => Ok(v),
        Err(_) => Err(()),
    }
}

/// Relies on hex::encode: two lowercase hexadecimal digits for each byte,
/// high nibble first.
#[verifier::external_body]
pub(crate) fn hex_encode_bytes(b: &[u8]) -> (r: String)
    ensures
        r@ == hex_encoded(b@),
{
    hex::encode(b)
}

/// Decodes a hexadecimal text into the bytes it denotes. Fails exactly when
/// the text has odd length or holds a character that is no hex digit.
pub fn hex_key_to_vec(hex_key: &[u8]) -> (r: Result<Vec<u8>, OtpError>)
    ensures
        r is Ok <==> (hex_key@.len() % 2 == 0 && all_hex_digits(hex_key@)),
        r matches Ok(v) ==> v@ == hex_decoded(hex_key@),
        r matches Err(e) ==> e == OtpError::InvalidSecretFormat,
{
    match hex_decode_bytes(hex_key) {
        Ok(v) => Ok(v),
        Err(_) => Err(OtpError::InvalidSecretFormat),
    }
}

} // verus!
