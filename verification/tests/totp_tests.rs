use ft_otp::totp::{generate, hmac_sha1, prepare_key};
use sha1::{Digest, Sha1};

// RFC 6238 appendix B: the 20-byte ASCII test secret and the published SHA-1
// reference codes, truncated to their low-order six digits.
fn rfc_secret() -> Vec<u8> {
    b"12345678901234567890".to_vec()
}

#[test]
fn rfc6238_known_answer_t59() {
    assert_eq!(generate(&rfc_secret(), 59), 287082);
}

#[test]
fn rfc6238_known_answer_t1111111109() {
    assert_eq!(generate(&rfc_secret(), 1111111109), 81804);
}

#[test]
fn rfc6238_known_answer_t1111111111() {
    assert_eq!(generate(&rfc_secret(), 1111111111), 50471);
}

#[test]
fn rfc6238_known_answer_t1234567890() {
    assert_eq!(generate(&rfc_secret(), 1234567890), 5924);
}

#[test]
fn rfc6238_known_answer_t2000000000() {
    assert_eq!(generate(&rfc_secret(), 2000000000), 279037);
}

#[test]
fn rfc6238_known_answer_t20000000000() {
    assert_eq!(generate(&rfc_secret(), 20000000000), 353130);
}

#[test]
fn generate_is_deterministic() {
    let s = rfc_secret();
    assert_eq!(generate(&s, 1234567890), generate(&s, 1234567890));
}

#[test]
fn generate_same_window_same_code() {
    let s = rfc_secret();
    // 90 and 119 share the step counter 3.
    assert_eq!(generate(&s, 90), generate(&s, 119));
    assert_eq!(generate(&s, 59), generate(&s, 30));
}

#[test]
fn generate_other_window_differs() {
    let s = rfc_secret();
    // Two published vectors from different windows carry different codes.
    assert_ne!(generate(&s, 59), generate(&s, 1111111109));
}

#[test]
fn generate_code_is_six_digits() {
    let s = rfc_secret();
    assert!(generate(&s, 0) < 1_000_000);
    assert!(generate(&s, u64::MAX) < 1_000_000);
}

#[test]
fn prepare_key_keeps_block_sized_key() {
    let key: Vec<u8> = (0u8..64).collect();
    assert_eq!(prepare_key(&key), key);
}

#[test]
fn prepare_key_pads_short_key() {
    let key = b"abc".to_vec();
    let mut expected = key.clone();
    expected.resize(64, 0);
    assert_eq!(prepare_key(&key), expected);
}

#[test]
fn prepare_key_pads_empty_key() {
    let key = Vec::new();
    assert_eq!(prepare_key(&key), vec![0u8; 64]);
}

#[test]
fn prepare_key_hashes_long_key() {
    let key = vec![0xaau8; 80];
    let mut hasher = Sha1::new();
    hasher.update(&key);
    let mut expected: Vec<u8> = hasher.finalize().to_vec();
    expected.resize(64, 0);
    assert_eq!(prepare_key(&key), expected);
}

#[test]
fn hmac_sha1_rfc2202_case_one() {
    // RFC 2202 test case 1: key of twenty 0x0b bytes, data "Hi There".
    let key = vec![0x0bu8; 20];
    let digest = hmac_sha1(&key, b"Hi There");
    assert_eq!(digest, hex::decode("b617318655057264e28bc0b6fb378c8ef146be00").unwrap());
}

#[test]
fn hmac_sha1_digest_is_twenty_bytes() {
    let digest = hmac_sha1(&rfc_secret(), b"message");
    assert_eq!(digest.len(), 20);
}
