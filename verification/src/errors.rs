use vstd::prelude::*;

verus! {

/// The failures this library reports. Every fallible operation returns one of
/// these explicitly; no operation signals failure through an empty value.
#[derive(Clone, Copy, Debug, PartialEq, Eq, Structural)]
pub enum OtpError {
    /// The supplied secret is not a well-formed hexadecimal string.
    InvalidSecretFormat,
    /// The supplied secret is shorter than 64 bytes (128 hexadecimal digits).
    SecretTooShort,
    /// The ciphertext could not be decrypted (malformed blob or wrong key).
    DecryptionFailed,
    /// The freshly generated encryption key could not be written to disk.
    KeyFilePersistFailed,
    /// No encrypted secret exists yet; the normal first-run state.
    VaultAbsent,
}

impl OtpError {
    /// A short human-readable description of the failure.
    pub fn message(&self) -> (r: &'static str)
        ensures
            r@.len() > 0,
    {
        proof {
            reveal_strlit("the secret is not a valid hex string");
            reveal_strlit("the secret must be at least 64 bytes (128 hex characters)");
            reveal_strlit("the stored secret could not be decrypted");
            reveal_strlit("the encryption key could not be saved");
            reveal_strlit("no encrypted secret has been stored yet");
        }
        match self {
            OtpError::InvalidSecretFormat => "the secret is not a valid hex string",
            OtpError::SecretTooShort => "the secret must be at least 64 bytes (128 hex characters)",
            OtpError::DecryptionFailed => "the stored secret could not be decrypted",
            OtpError::KeyFilePersistFailed => "the encryption key could not be saved",
            OtpError::VaultAbsent => "no encrypted secret has been stored yet",
        }
    }
}

} // verus!
