use vstd::prelude::*;

use magic_crypt::MagicCrypt256;
use magic_crypt::MagicCryptTrait;

use crate::errors::OtpError;
use crate::hexcodec::all_hex_digits;
use crate::hexcodec::hex_decoded;
use crate::hexcodec::hex_key_to_vec;
use crate::totp::generate;
use crate::totp::totp_code;

verus! {

/// The base64 ciphertext that magic_crypt's MagicCrypt256 produces for a
/// message under a key (AES-256-CBC, key derived by SHA-256 from the key
/// text, zero IV): a function of the key and the message alone.
pub uninterp spec fn encrypted_blob(key: Seq<char>, message: Seq<u8>) -> Seq<char>;

/// Relies on magic_crypt's MagicCrypt256::new and encrypt_bytes_to_base64:
/// the ciphertext depends on the key text and the message bytes alone.
#[verifier::external_body]
fn mc_encrypt(key: &str, message: &[u8]) -> (r: String)
    ensures
        r@ == encrypted_blob(key@, message@),
{
    let mc = MagicCrypt256::new(key.as_bytes(), None::<&[u8]>);
    mc.encrypt_bytes_to_base64(&message)
}

/// Relies on magic_crypt's MagicCrypt256::new and decrypt_base64_to_bytes:
/// decrypting a ciphertext that encrypt_bytes_to_base64 produced under the
/// same key returns exactly the bytes that were encrypted.
#[verifier::external_body]
fn mc_decrypt(key: &str, blob: &str) -> (r: Result<Vec<u8>, ()>)
    ensures
        forall|m: Seq<u8>| blob@ == encrypted_blob(key@, m) ==> r is Ok,
        forall|m: Seq<u8>| blob@ == encrypted_blob(key@, m) ==> r->Ok_0@ == m,
{
    let mc = MagicCrypt256::new(key.as_bytes(), None::<&[u8]>);
    match mc.decrypt_base64_to_bytes(blob) {
        Ok(v) => Ok(v),
        Err(_) => Err(()),
    }
}

/// A secret is accepted for import when it is long enough and is well-formed
/// hexadecimal text.
pub open spec fn valid_secret(s: Seq<u8>) -> bool {
    s.len() >= 128 && s.len() % 2 == 0 && all_hex_digits(s)
}

/// Validates a raw hexadecimal secret and encrypts its text under `key`,
/// returning the base64 ciphertext that is the secret's only on-disk form.
/// A short secret is refused before its digits are looked at.
pub fn encrypt_secret(raw_hex: &[u8], key: &str) -> (r: Result<String, OtpError>)
    ensures
        r matches Ok(blob) ==> blob@ == encrypted_blob(key@, raw_hex@),
        r is Ok <==> valid_secret(raw_hex@),
        (r matches Err(e) && e == OtpError::SecretTooShort) <==> raw_hex@.len() < 128,
        (r matches Err(e) && e == OtpError::InvalidSecretFormat) <==> (raw_hex@.len() >= 128
            && !(raw_hex@.len() % 2 == 0 && all_hex_digits(raw_hex@))),
{
    if raw_hex.len() < 128 {
        return Err(OtpError::SecretTooShort);
    }
    if hex_key_to_vec(raw_hex).is_err() {
        return Err(OtpError::InvalidSecretFormat);
    }
    Ok(mc_encrypt(key, raw_hex))
}

/// Decrypts the stored ciphertext with `key`. A blob that `encrypt_secret`
/// produced under the same key yields back exactly the bytes that were
/// encrypted; a malformed blob or a wrong key fails, or — the cipher carries
/// no integrity tag — may silently yield other bytes, which callers must
/// validate as hexadecimal before use.
pub fn decrypt_secret(blob: &str, key: &str) -> (r: Result<Vec<u8>, OtpError>)
    ensures
        forall|m: Seq<u8>| blob@ == encrypted_blob(key@, m) ==> (r matches Ok(v) && v@ == m),
        r matches Err(e) ==> e == OtpError::DecryptionFailed,
{
    match mc_decrypt(key, blob) {
        Ok(v) => Ok(v),
        Err(_) => Err(OtpError::DecryptionFailed),
    }
}

/// The 6-digit code split for display: two groups of three digits with a
/// space between, each zero-padded.
pub open spec fn code_display(code: u32) -> Seq<char>
    recommends
        code < 1000000,
{
    seq![
        decimal_digit_char(code as int / 100000 % 10),
        decimal_digit_char(code as int / 10000 % 10),
        decimal_digit_char(code as int / 1000 % 10),
        ' ',
        decimal_digit_char(code as int / 100 % 10),
        decimal_digit_char(code as int / 10 % 10),
        decimal_digit_char(code as int % 10),
    ]
}

/// The ASCII digit for a value below ten.
pub open spec fn decimal_digit_char(d: int) -> char
    recommends
        0 <= d < 10,
{
    ((48 + d) as u8) as char
}

/// Renders one decimal digit.
fn push_digit(s: &mut String, d: u32)
    requires
        d < 10,
    ensures
        final(s)@ == old(s)@.push(decimal_digit_char(d as int)),
{
    proof {
        reveal_strlit("0");
        reveal_strlit("1");
        reveal_strlit("2");
        reveal_strlit("3");
        reveal_strlit("4");
        reveal_strlit("5");
        reveal_strlit("6");
        reveal_strlit("7");
        reveal_strlit("8");
        reveal_strlit("9");
    }
    let piece = match d {
        0 => "0",
        1 => "1",
        2 => "2",
        3 => "3",
        4 => "4",
        5 => "5",
        6 => "6",
        7 => "7",
        8 => "8",
        _ => "9",
    };
    s.append(piece);
    assert(s@ =~= old(s)@.push(decimal_digit_char(d as int)));
}

/// Renders a code below one million as two space-separated groups of three
/// zero-padded decimal digits.
pub fn format_code(code: u32) -> (r: String)
    requires
        code < 1000000,
    ensures
        r@ == code_display(code),
{
    proof {
        reveal_strlit(" ");
    }
    let mut r = String::new();
    push_digit(&mut r, code / 100000 % 10);
    push_digit(&mut r, code / 10000 % 10);
    push_digit(&mut r, code / 1000 % 10);
    r.append(" ");
    push_digit(&mut r, code / 100 % 10);
    push_digit(&mut r, code / 10 % 10);
    push_digit(&mut r, code % 10);
    assert(r@ =~= code_display(code));
    r
}

/// Recovers the stored secret with `key`, checks that it is non-empty
/// hexadecimal text, and derives the displayable TOTP code for `time`. For a
/// blob that encrypts a non-empty well-formed hex secret under `key`, the
/// result is exactly the display form of that secret's code.
pub fn do_totp(blob: &str, key: &str, time: u64) -> (r: Result<String, OtpError>)
    ensures
        forall|m: Seq<u8>|
            (blob@ == encrypted_blob(key@, m) && m.len() > 0 && m.len() % 2 == 0
                && all_hex_digits(m)) ==> (r matches Ok(s) && s@ == code_display(
                totp_code(hex_decoded(m), time),
            )),
        forall|m: Seq<u8>|
            (blob@ == encrypted_blob(key@, m) && m.len() == 0) ==> (r matches Err(e) && e
                == OtpError::VaultAbsent),
        forall|m: Seq<u8>|
            (blob@ == encrypted_blob(key@, m) && m.len() > 0 && !(m.len() % 2 == 0
                && all_hex_digits(m))) ==> (r matches Err(e) && e
                == OtpError::InvalidSecretFormat),
        r matches Err(e) ==> (e == OtpError::DecryptionFailed || e == OtpError::VaultAbsent
            || e == OtpError::InvalidSecretFormat),
{
    let secret_hex = match decrypt_secret(blob, key) {
        Ok(v) => v,
        Err(e) => {
            return Err(e);
        },
    };
    if secret_hex.len() == 0 {
        return Err(OtpError::VaultAbsent);
    }
    let secret = match hex_key_to_vec(secret_hex.as_slice()) {
        Ok(v) => v,
        Err(e) => {
            return Err(e);
        },
    };
    let code = generate(&secret, time);
    Ok(format_code(code))
}

} // verus!
