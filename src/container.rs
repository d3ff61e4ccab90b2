//! Decryption of a whole container: parse, derive the key, decrypt.

use vstd::prelude::*;
use vstd::string::StringSliceAdditionalSpecFns;
use crate::cipher::{aes128_cbc_decrypt_of, decrypt_data, BLOCK_LEN};
use crate::error::DecryptError;
use crate::header::{body_bytes, extract_header, flock_bytes, header_error, iv_bytes};
use crate::key::{derive_key, generate_key};

verus! {

/// The error that decrypting a container yields, if any.
pub open spec fn container_error(data: Seq<u8>) -> Option<DecryptError> {
    if header_error(data) is Some {
        header_error(data)
    } else if body_bytes(data).len() % (BLOCK_LEN as nat) != 0 {
        Some(DecryptError::InvalidCiphertextLength)
    } else {
        None
    }
}

/// The plaintext of a well-formed container for an account email.
pub open spec fn container_plaintext(data: Seq<u8>, email: Seq<u8>) -> Seq<u8> {
    aes128_cbc_decrypt_of(derive_key(email, flock_bytes(data)), iv_bytes(data), body_bytes(data))
}

/// Decrypts the contents of a container file with the key derived from the
/// account email and the container's flock.
pub fn decrypt_container(data: &[u8], email: &str) -> (r: Result<Vec<u8>, DecryptError>)
    ensures
        r is Err <==> container_error(data@) is Some,
        r matches Err(e) ==> container_error(data@) == Some(e),
        r matches Ok(p) ==> p@ == container_plaintext(data@, email.spec_bytes()),
{
    let (flock, iv, body) = match extract_header(data) {
        Ok(parts) => parts,
        Err(e) => {
            return Err(e);
        },
    };
    let key = generate_key(email, flock);
    decrypt_data(key.as_slice(), iv, body)
}

} // verus!
