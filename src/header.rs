//! Parsing of the container header.

use vstd::prelude::*;
use vstd::string::StringSliceAdditionalSpecFns;
use vstd::utf8::valid_utf8;
use crate::error::DecryptError;

verus! {

/// Offset of the flock string in the header.
pub const FLOCK_START: usize = 12;

/// Length of the metadata region that follows the flock and is skipped.
pub const POST_FLOCK_LEN: usize = 284;

/// Length of the initialization vector.
pub const IV_LEN: usize = 16;

/// The buffer starts with the container magic `01 09`.
pub open spec fn has_magic(data: Seq<u8>) -> bool {
    data.len() >= 2 && data[0] == 1 && data[1] == 9
}

/// Length of the flock string, read from byte 2.
pub open spec fn flock_len(data: Seq<u8>) -> int {
    data[2] as int
}

/// Offset of the initialization vector.
pub open spec fn iv_start(data: Seq<u8>) -> int {
    FLOCK_START + flock_len(data) + POST_FLOCK_LEN
}

/// The buffer holds every field that the header announces.
pub open spec fn is_complete(data: Seq<u8>) -> bool {
    data.len() >= 3 && data.len() >= iv_start(data) + IV_LEN
}

/// The bytes of the flock string.
pub open spec fn flock_bytes(data: Seq<u8>) -> Seq<u8> {
    data.subrange(FLOCK_START as int, FLOCK_START + flock_len(data))
}

/// The initialization vector.
pub open spec fn iv_bytes(data: Seq<u8>) -> Seq<u8> {
    data.subrange(iv_start(data), iv_start(data) + IV_LEN)
}

/// The ciphertext: everything after the initialization vector.
pub open spec fn body_bytes(data: Seq<u8>) -> Seq<u8> {
    data.subrange(iv_start(data) + IV_LEN, data.len() as int)
}

/// The error that parsing a buffer yields, if any: bad magic first, then a
/// short buffer, then a flock that is not UTF-8.
pub open spec fn header_error(data: Seq<u8>) -> Option<DecryptError> {
    if !has_magic(data) {
        Some(DecryptError::InvalidFormat)
    } else if !is_complete(data) {
        Some(DecryptError::Truncated)
    } else if !valid_utf8(flock_bytes(data)) {
        Some(DecryptError::DecodeError)
    } else {
        None
    }
}

/// Relies on `std::str::from_utf8`: it succeeds exactly on valid UTF-8, and
/// the string it returns holds the given bytes.
#[verifier::external_body]
fn str_from_utf8(bytes: &[u8]) -> (r: Option<&str>)
    ensures
        r is Some <==> valid_utf8(bytes@),
        r matches Some(s) ==> s.spec_bytes() == bytes@,
{
    std::str::from_utf8(bytes).ok()
}

/// Splits a container into its flock string, initialization vector and
/// ciphertext. The three outputs borrow from `data`.
pub fn extract_header(data: &[u8]) -> (r: Result<(&str, &[u8], &[u8]), DecryptError>)
    ensures
        !has_magic(data@) ==> r == Err::<(&str, &[u8], &[u8]), _>(DecryptError::InvalidFormat),
        has_magic(data@) && !is_complete(data@) ==> r == Err::<(&str, &[u8], &[u8]), _>(
            DecryptError::Truncated,
        ),
        r is Err <==> header_error(data@) is Some,
        r matches Err(e) ==> header_error(data@) == Some(e),
        r matches Ok((flock, iv, body)) ==> {
            &&& flock.spec_bytes() == flock_bytes(data@)
            &&& iv@ == iv_bytes(data@)
            &&& body@ == body_bytes(data@)
        },
{
    if data.len() < 2 || data[0] != 1u8 || data[1] != 9u8 {
        return Err(DecryptError::InvalidFormat);
    }
    if data.len() < 3 {
        return Err(DecryptError::Truncated);
    }
    let flen: usize = data[2] as usize;
    let iv_at: usize = FLOCK_START + flen + POST_FLOCK_LEN;
    if data.len() < iv_at + IV_LEN {
        return Err(DecryptError::Truncated);
    }
    let flock = match str_from_utf8(vstd::slice::slice_subrange(data, FLOCK_START, FLOCK_START + flen)) {
        Some(s) => s,
        None => {
            return Err(DecryptError::DecodeError);
        },
    };
    let iv = vstd::slice::slice_subrange(data, iv_at, iv_at + IV_LEN);
    let body = vstd::slice::slice_subrange(data, iv_at + IV_LEN, data.len());
    Ok((flock, iv, body))
}

} // verus!
