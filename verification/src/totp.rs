use vstd::prelude::*;

use sha1::Digest;
use sha1::Sha1;

verus! {

/// The SHA-1 digest of a byte sequence, as the sha1 crate computes it. The
/// digest is a function of the input bytes alone; its 20-byte length is
/// stated where the digest is computed.
pub uninterp spec fn sha1_of(data: Seq<u8>) -> Seq<u8>;

/// Relies on the sha1 crate's Sha1 hasher (new/update/finalize): the digest
/// depends on the input bytes alone and is 20 bytes long.
#[verifier::external_body]
fn sha1_digest(data: &[u8]) -> (r: Vec<u8>)
    ensures
        r@ == sha1_of(data@),
        r@.len() == 20,
{
    let mut hasher = Sha1::new();
    hasher.update(data);
    hasher.finalize().to_vec()
}

/// HMAC's key-normalisation rule for a 64-byte block size: a key of exactly
/// 64 bytes is kept; a shorter one is zero-padded on the right; a longer one
/// is first hashed (20 bytes) and then zero-padded.
pub open spec fn prepared_key(key: Seq<u8>) -> Seq<u8> {
    if key.len() == 64 {
        key
    } else if key.len() < 64 {
        key + Seq::new((64 - key.len()) as nat, |i: int| 0u8)
    } else {
        sha1_of(key) + Seq::new(44, |i: int| 0u8)
    }
}

/// Each byte of the key XOR-ed with one padding byte.
pub open spec fn xor_pad(key: Seq<u8>, pad: u8) -> Seq<u8> {
    Seq::new(key.len(), |i: int| key[i] ^ pad)
}

/// HMAC-SHA1 of RFC 2104: hash the inner-padded key followed by the message,
/// then hash the outer-padded key followed by that digest.
pub open spec fn hmac_sha1_of(key: Seq<u8>, message: Seq<u8>) -> Seq<u8> {
    let k = prepared_key(key);
    sha1_of(xor_pad(k, 0x5c) + sha1_of(xor_pad(k, 0x36) + message))
}

/// Normalises a key to the 64-byte HMAC block length: kept at 64 bytes,
/// zero-padded below, hashed and zero-padded above.
pub fn prepare_key(key: &Vec<u8>) -> (r: Vec<u8>)
    ensures
        r@ == prepared_key(key@),
        r@.len() == 64,
{
    if key.len() == 64 {
        let mut r: Vec<u8> = Vec::new();
        let mut i: usize = 0;
        while i < key.len()
            invariant
                i <= key.len(),
                r@ == key@.take(i as int),
            decreases key.len() - i,
        {
            r.push(key[i]);
            i += 1;
        }
        assert(r@ =~= key@);
        r
    } else if key.len() < 64 {
        let mut r: Vec<u8> = Vec::new();
        let mut i: usize = 0;
        while i < key.len()
            invariant
                i <= key.len(),
                r@ == key@.take(i as int),
            decreases key.len() - i,
        {
            r.push(key[i]);
            i += 1;
        }
        assert(r@ =~= key@);
        while r.len() < 64
            invariant
                key@.len() <= r@.len() <= 64,
                r@.take(key@.len() as int) == key@,
                forall|j: int| key@.len() <= j < r@.len() ==> r@[j] == 0u8,
            decreases 64 - r.len(),
        {
            r.push(0u8);
            assert(r@.take(key@.len() as int) =~= key@);
        }
        assert(r@ =~= key@ + Seq::new((64 - key@.len()) as nat, |i: int| 0u8));
        r
    } else {
        let mut r = sha1_digest(key.as_slice());
        while r.len() < 64
            invariant
                r@.len() >= 20,
                r@.len() <= 64,
                r@.take(20) == sha1_of(key@),
                forall|j: int| 20 <= j < r@.len() ==> r@[j] == 0u8,
            decreases 64 - r.len(),
        {
            assert(r@.take(20) =~= r@.push(0u8).take(20));
            r.push(0u8);
        }
        assert(r@ =~= sha1_of(key@) + Seq::new(44, |i: int| 0u8));
        r
    }
}

/// Computes HMAC-SHA1 of `message` under `key`, bit-for-bit as RFC 2104
/// prescribes; the result is a 20-byte digest.
pub fn hmac_sha1(key: &Vec<u8>, message: &[u8]) -> (r: Vec<u8>)
    ensures
        r@ == hmac_sha1_of(key@, message@),
        r@.len() == 20,
{
    let k = prepare_key(key);
    let mut inner: Vec<u8> = Vec::new();
    let mut i: usize = 0;
    while i < k.len()
        invariant
            i <= k.len(),
            k@.len() == 64,
            inner@ == xor_pad(k@, 0x36).take(i as int),
        decreases k.len() - i,
    {
        inner.push(k[i] ^ 0x36);
        assert(inner@ =~= xor_pad(k@, 0x36).take(i + 1));
        i += 1;
    }
    assert(inner@ =~= xor_pad(k@, 0x36));
    let mut j: usize = 0;
    while j < message.len()
        invariant
            j <= message@.len(),
            inner@ == xor_pad(k@, 0x36) + message@.take(j as int),
        decreases message@.len() - j,
    {
        inner.push(message[j]);
        assert(inner@ =~= xor_pad(k@, 0x36) + message@.take(j + 1));
        j += 1;
    }
    assert(inner@ =~= xor_pad(k@, 0x36) + message@);
    let inner_digest = sha1_digest(inner.as_slice());

    let mut outer: Vec<u8> = Vec::new();
    let mut i: usize = 0;
    while i < k.len()
        invariant
            i <= k.len(),
            k@.len() == 64,
            outer@ == xor_pad(k@, 0x5c).take(i as int),
        decreases k.len() - i,
    {
        outer.push(k[i] ^ 0x5c);
        assert(outer@ =~= xor_pad(k@, 0x5c).take(i + 1));
        i += 1;
    }
    assert(outer@ =~= xor_pad(k@, 0x5c));
    let mut j: usize = 0;
    while j < inner_digest.len()
        invariant
            j <= inner_digest@.len(),
            outer@ == xor_pad(k@, 0x5c) + inner_digest@.take(j as int),
        decreases inner_digest@.len() - j,
    {
        outer.push(inner_digest[j]);
        assert(outer@ =~= xor_pad(k@, 0x5c) + inner_digest@.take(j + 1));
        j += 1;
    }
    assert(outer@ =~= xor_pad(k@, 0x5c) + inner_digest@);
    sha1_digest(outer.as_slice())
}

/// The eight bytes of `x` in big-endian order.
pub open spec fn be_bytes8(x: u64) -> Seq<u8> {
    seq![
        (x / 0x100000000000000 % 256) as u8,
        (x / 0x1000000000000 % 256) as u8,
        (x / 0x10000000000 % 256) as u8,
        (x / 0x100000000 % 256) as u8,
        (x / 0x1000000 % 256) as u8,
        (x / 0x10000 % 256) as u8,
        (x / 0x100 % 256) as u8,
        (x % 256) as u8,
    ]
}

/// Splits a counter into its eight big-endian bytes.
fn u64_to_be_bytes(x: u64) -> (r: Vec<u8>)
    ensures
        r@ == be_bytes8(x),
{
    let mut r: Vec<u8> = Vec::new();
    r.push((x / 0x100000000000000 % 256) as u8);
    r.push((x / 0x1000000000000 % 256) as u8);
    r.push((x / 0x10000000000 % 256) as u8);
    r.push((x / 0x100000000 % 256) as u8);
    r.push((x / 0x1000000 % 256) as u8);
    r.push((x / 0x10000 % 256) as u8);
    r.push((x / 0x100 % 256) as u8);
    r.push((x % 256) as u8);
    assert(r@ =~= be_bytes8(x));
    r
}

/// RFC 4226 dynamic truncation of a 20-byte digest, reduced modulo one
/// million: four bytes are read big-endian at the offset named by the
/// digest's last nibble, with the top bit masked off.
pub open spec fn truncated_code(d: Seq<u8>) -> u32
    recommends
        d.len() == 20,
{
    let off = (d[19] & 0x0f) as int;
    ((((d[off] & 0x7f) as u32) * 0x1000000 + (d[off + 1] as u32) * 0x10000 + (d[off + 2] as u32)
        * 0x100 + (d[off + 3] as u32)) % 1000000) as u32
}

/// The TOTP code for a secret and a unix time: HMAC-SHA1 of the 30-second
/// step counter, dynamically truncated.
pub open spec fn totp_code(secret: Seq<u8>, unix_time: u64) -> u32 {
    truncated_code(hmac_sha1_of(secret, be_bytes8(unix_time / 30)))
}

/// Derives the 6-digit TOTP code for `key` at `time` (unix seconds), as
/// RFC 6238 prescribes with SHA-1, 6 digits and a 30-second period.
pub fn generate(key: &Vec<u8>, time: u64) -> (code: u32)
    ensures
        code == totp_code(key@, time),
        code < 1000000,
{
    let step: u64 = time / 30;
    let msg = u64_to_be_bytes(step);
    let hmac = hmac_sha1(key, msg.as_slice());
    let last = hmac[19];
    let offset = (last & 0x0f) as usize;
    assert(last & 0x0f < 16) by (bit_vector);
    let at_offset = hmac[offset];
    let top = at_offset & 0x7f;
    assert(top < 128) by (bit_vector)
        requires
            top == at_offset & 0x7f,
    ;
    let value: u32 = (top as u32) * 0x1000000 + (hmac[offset + 1] as u32) * 0x10000 + (hmac[offset
        + 2] as u32) * 0x100 + (hmac[offset + 3] as u32);
    value % 1000000
}

/// Codes depend only on the 30-second window: two times with the same step
/// counter yield the same code.
pub proof fn lemma_totp_window(secret: Seq<u8>, t1: u64, t2: u64)
    requires
        t1 / 30 == t2 / 30,
    ensures
        totp_code(secret, t1) == totp_code(secret, t2),
{
}

} // verus!
