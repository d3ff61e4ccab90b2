//! AES-128-CBC decryption of a container body.

use vstd::prelude::*;
use libaes::Cipher;
use crate::error::DecryptError;

verus! {

/// Length of an AES block, in bytes.
pub const BLOCK_LEN: usize = 16;

/// Length of an AES-128 key, in bytes.
pub const AES_KEY_LEN: usize = 16;

/// The raw AES-128-CBC decryption of `data` under `key` and `iv`, with no
/// padding removed.
pub uninterp spec fn aes128_cbc_decrypt_of(key: Seq<u8>, iv: Seq<u8>, data: Seq<u8>) -> Seq<u8>;

/// Relies on libaes's `Cipher::new_128`, `Cipher::set_auto_padding` and
/// `Cipher::cbc_decrypt`: with padding switched off and a whole number of
/// blocks, `cbc_decrypt` decrypts every block in place, so the output is as
/// long as the input.
#[verifier::external_body]
fn cbc_decrypt_raw(key: &[u8], iv: &[u8], data: &[u8]) -> (r: Vec<u8>)
    requires
        key@.len() == AES_KEY_LEN,
        iv@.len() == BLOCK_LEN,
        data@.len() % (BLOCK_LEN as nat) == 0,
    ensures
        r@ == aes128_cbc_decrypt_of(key@, iv@, data@),
        r@.len() == data@.len(),
{
    let mut cipher = Cipher::new_128(key.try_into().unwrap());
    cipher.set_auto_padding(false);
    cipher.cbc_decrypt(iv, data)
}

/// The error that decrypting with a key of this length yields on this
/// ciphertext, if any.
pub open spec fn decrypt_error(key: Seq<u8>, data: Seq<u8>) -> Option<DecryptError> {
    if key.len() != AES_KEY_LEN {
        Some(DecryptError::InvalidKeyLength)
    } else if data.len() % (BLOCK_LEN as nat) != 0 {
        Some(DecryptError::InvalidCiphertextLength)
    } else {
        None
    }
}

/// Decrypts `data` with AES-128 in CBC mode. The decrypted bytes are
/// returned as they are: no padding is stripped.
pub fn decrypt_data(key: &[u8], iv: &[u8], data: &[u8]) -> (r: Result<Vec<u8>, DecryptError>)
    requires
        iv@.len() == BLOCK_LEN,
    ensures
        r is Err <==> decrypt_error(key@, data@) is Some,
        r matches Err(e) ==> decrypt_error(key@, data@) == Some(e),
        r matches Ok(p) ==> p@ == aes128_cbc_decrypt_of(key@, iv@, data@) && p@.len() == data@.len(),
{
    if key.len() != AES_KEY_LEN {
        return Err(DecryptError::InvalidKeyLength);
    }
    if data.len() % BLOCK_LEN != 0 {
        return Err(DecryptError::InvalidCiphertextLength);
    }
    Ok(cbc_decrypt_raw(key, iv, data))
}

} // verus!
