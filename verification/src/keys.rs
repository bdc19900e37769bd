use vstd::prelude::*;

use rand::RngCore;
use rand_chacha::ChaChaRng;
use rand_core::SeedableRng;

use crate::hexcodec::hex_encode_bytes;
use crate::hexcodec::is_hex_digit_char;
use crate::hexcodec::lemma_hex_encoded_chars;

verus! {

/// Relies on rand_chacha's ChaChaRng seeded by SeedableRng::from_entropy
/// from the operating system's entropy source, and rand's RngCore::fill_bytes:
/// 32 bytes are drawn; nothing is assumed about their values.
#[verifier::external_body]
fn random_key_bytes() -> (r: Vec<u8>)
    ensures
        r@.len() == 32,
{
    let mut key = [0u8; 32];
    let mut rng = ChaChaRng::from_entropy();
    rng.fill_bytes(&mut key);
    key.to_vec()
}

/// The key text is 64 lowercase hexadecimal digits: the hex form of 32 bytes.
pub open spec fn well_formed_key(key: Seq<char>) -> bool {
    key.len() == 64 && (forall|i: int| 0 <= i < key.len() ==> is_hex_digit_char(#[trigger] key[i]))
}

/// The encryption key that protects the vault, together with whether it was
/// generated by this call (a fresh key is not yet on disk and the caller
/// must persist it).
pub struct KeyStore {
    key: String,
    fresh: bool,
}

impl KeyStore {
    /// The key text.
    pub closed spec fn spec_key(&self) -> Seq<char> {
        self.key@
    }

    /// Whether the key was newly generated rather than reused.
    pub closed spec fn spec_fresh(&self) -> bool {
        self.fresh
    }

    /// Generates a fresh 256-bit key and renders it as 64 hexadecimal digits.
    fn generate_key() -> (r: String)
        ensures
            well_formed_key(r@),
    {
        let bytes = random_key_bytes();
        let r = hex_encode_bytes(bytes.as_slice());
        proof {
            lemma_hex_encoded_chars(bytes@);
        }
        r
    }

    /// The generate-if-absent rule of the key lifecycle: a non-empty stored
    /// key text is reused unchanged, anything else is replaced by a freshly
    /// generated well-formed key that the caller must persist.
    pub fn ensure_key(existing: Option<String>) -> (r: KeyStore)
        ensures
            (match existing {
                Option::Some(k) => k@.len() > 0,
                Option::None => false,
            }) ==> (!r.spec_fresh() && r.spec_key() == existing->Some_0@),
            !(match existing {
                Option::Some(k) => k@.len() > 0,
                Option::None => false,
            }) ==> (r.spec_fresh() && well_formed_key(r.spec_key())),
    {
        match existing {
            Option::Some(k) => {
                if k.as_str().unicode_len() > 0 {
                    KeyStore { key: k, fresh: false }
                } else {
                    KeyStore { key: Self::generate_key(), fresh: true }
                }
            },
            Option::None => KeyStore { key: Self::generate_key(), fresh: true },
        }
    }

    /// The key text, for use as the vault's encryption key.
    pub fn key(&self) -> (r: &str)
        ensures
            r@ == self.spec_key(),
    {
        self.key.as_str()
    }

    /// Whether the key must still be written to the key file.
    pub fn is_fresh(&self) -> (r: bool)
        ensures
            r == self.spec_fresh(),
    {
        self.fresh
    }
}

} // verus!
