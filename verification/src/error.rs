//! The failure kinds of the encryption engine.

use vstd::prelude::*;

verus! {

/// Why an operation of this library failed.
#[derive(Clone, Copy, Debug, PartialEq, Eq, Structural)]
pub enum EncryptionError {
    /// The operating system's random source could not deliver bytes.
    EntropySourceError,
    /// A requested key length is zero, too large, or not a number.
    InvalidKeyLength,
    /// The cipher cannot be set up: the key or the IV has the wrong size.
    CipherInitError,
    /// The input is shorter than the header of the envelope.
    TruncatedEnvelope,
    /// The decrypted data does not end in valid padding.
    PaddingError,
}

impl EncryptionError {
    /// A short description of the failure, for messages to the user.
    pub fn message(&self) -> (text: &'static str)
        ensures
            text@ == Self::message_of(*self)@,
    {
        match self {
            EncryptionError::EntropySourceError => "the system random source is unavailable",
            EncryptionError::InvalidKeyLength => "the key length is invalid",
            EncryptionError::CipherInitError => "the cipher rejected the key or IV size",
            EncryptionError::TruncatedEnvelope => "the encrypted data is too short",
            EncryptionError::PaddingError => "decryption failed",
        }
    }

    /// The text that `message` returns for each kind.
    pub open spec fn message_of(kind: EncryptionError) -> &'static str {
        match kind {
            EncryptionError::EntropySourceError => "the system random source is unavailable",
            EncryptionError::InvalidKeyLength => "the key length is invalid",
            EncryptionError::CipherInitError => "the cipher rejected the key or IV size",
            EncryptionError::TruncatedEnvelope => "the encrypted data is too short",
            EncryptionError::PaddingError => "decryption failed",
        }
    }
}

} // verus!
