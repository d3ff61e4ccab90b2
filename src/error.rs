//! Errors of the decryption pipeline.

use vstd::prelude::*;

verus! {

/// Why a container could not be parsed or decrypted.
#[derive(Debug, Clone, Copy, PartialEq, Eq, Structural)]
pub enum DecryptError {
    /// The buffer does not start with the container magic `01 09`.
    InvalidFormat,
    /// The header claims more bytes than the buffer holds.
    Truncated,
    /// The flock string is not valid UTF-8.
    DecodeError,
    /// The key is not 16 bytes long.
    InvalidKeyLength,
    /// The ciphertext is not a whole number of 16-byte blocks.
    InvalidCiphertextLength,
}

impl DecryptError {
    /// A short human-readable description of the error.
    pub fn message(&self) -> &'static str {
        match self {
            DecryptError::InvalidFormat => "Invalid file header",
            DecryptError::Truncated => "File header is truncated",
            DecryptError::DecodeError => "Error decoding flock string",
            DecryptError::InvalidKeyLength => "Invalid key length",
            DecryptError::InvalidCiphertextLength => "Invalid ciphertext length",
        }
    }
}

} // verus!
