use ft_otp::keys::KeyStore;
use ft_otp::uri::build_uri;

#[test]
fn build_uri_known_answer() {
    let uri = build_uri(b"12345678901234567890", "ft_otp", "hboissel");
    assert_eq!(
        uri,
        "otpauth://totp/ft_otp?secret=GEZDGNBVGY3TQOJQGEZDGNBVGY3TQOJQ&issuer=hboissel&algorithm=SHA1&digits=6&period=30"
    );
}

fn secret_param_of(uri: &str) -> &str {
    let start = uri.find("?secret=").unwrap() + "?secret=".len();
    let rest = &uri[start..];
    let end = rest.find('&').unwrap_or(rest.len());
    &rest[..end]
}

#[test]
fn uri_secret_param_decodes_to_secret() {
    let secret = b"12345678901234567890";
    let uri = build_uri(secret, "ft_otp", "hboissel");
    let param = secret_param_of(&uri);
    let decoded = base32::decode(base32::Alphabet::Rfc4648 { padding: false }, param);
    assert_eq!(decoded, Some(secret.to_vec()));
}

#[test]
fn uri_secret_param_decodes_for_other_lengths() {
    for len in 1..40usize {
        let secret: Vec<u8> = (0..len as u8).map(|b| b.wrapping_mul(37)).collect();
        let uri = build_uri(&secret, "label", "issuer");
        let param = secret_param_of(&uri);
        let decoded = base32::decode(base32::Alphabet::Rfc4648 { padding: false }, param);
        assert_eq!(decoded, Some(secret));
    }
}

#[test]
fn ensure_key_reuses_existing_key() {
    let store = KeyStore::ensure_key(Some("my stored key".to_string()));
    assert_eq!(store.key(), "my stored key");
    assert!(!store.is_fresh());
}

#[test]
fn ensure_key_generates_when_absent() {
    let store = KeyStore::ensure_key(None);
    assert!(store.is_fresh());
    assert_eq!(store.key().len(), 64);
    assert!(store.key().chars().all(|c| c.is_ascii_hexdigit() && !c.is_ascii_uppercase()));
}

#[test]
fn ensure_key_generates_when_empty() {
    let store = KeyStore::ensure_key(Some(String::new()));
    assert!(store.is_fresh());
    assert_eq!(store.key().len(), 64);
}

#[test]
fn generated_keys_are_not_reused() {
    let a = KeyStore::ensure_key(None);
    let b = KeyStore::ensure_key(None);
    assert_ne!(a.key(), b.key());
}
