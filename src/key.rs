//! Key derivation: SHA-1 digests interleaved with a five-word XOR diffusion.

use vstd::prelude::*;
use vstd::string::StringSliceAdditionalSpecFns;
use sha1::{Digest, Sha1};

verus! {

/// Number of 4-byte words in a SHA-1 digest.
pub const WORD_COUNT: usize = 5;

/// Length of one word of a digest, in bytes.
pub const WORD_LEN: usize = 4;

/// Length of a SHA-1 digest, in bytes.
pub const DIGEST_LEN: usize = 20;

/// Length of a derived key, in bytes.
pub const KEY_LEN: usize = 16;

/// The SHA-1 digest of a byte sequence.
pub uninterp spec fn sha1_of(data: Seq<u8>) -> Seq<u8>;

/// Relies on sha1's `Digest::digest` for `Sha1`: the 20-byte SHA-1 digest
/// of the input, which depends on the input bytes alone.
#[verifier::external_body]
fn sha1_digest(data: &[u8]) -> (r: Vec<u8>)
    ensures
        r@ == sha1_of(data@),
        r@.len() == DIGEST_LEN,
{
    Sha1::digest(data).to_vec()
}

/// Byte-wise XOR of two sequences of equal length.
pub open spec fn xor_bytes(a: Seq<u8>, b: Seq<u8>) -> Seq<u8> {
    Seq::new(a.len(), |k: int| a[k] ^ b[k])
}

/// The diffusion of a 20-byte digest with the given rotation: word `i` of the
/// result is word `i` XOR word `(modifier + i) % 5`, both read from the input.
pub open spec fn diffuse(hash: Seq<u8>, modifier: int) -> Seq<u8> {
    Seq::new(20, |j: int| hash[j] ^ hash[4 * ((modifier + j / 4) % 5) + j % 4])
}

/// The key for an account email and a flock, both given as UTF-8 bytes.
pub open spec fn derive_key(email: Seq<u8>, flock: Seq<u8>) -> Seq<u8> {
    let t1 = diffuse(sha1_of(email), 2);
    let t2 = diffuse(sha1_of(t1), 4);
    sha1_of(t2.subrange(0, 16) + flock).subrange(0, 16)
}

/// Combines five 4-byte words: output word `i` is word `i` XOR word
/// `(modifier + i) % 5`. Every output is computed from the words as given,
/// never from an output already produced.
pub fn multi_xor(values: Vec<&[u8]>, modifier: usize) -> (r: Vec<Vec<u8>>)
    requires
        values@.len() == WORD_COUNT,
        forall|i: int| 0 <= i < 5 ==> (#[trigger] values@[i])@.len() == WORD_LEN,
    ensures
        r@.len() == WORD_COUNT,
        forall|i: int|
            0 <= i < 5 ==> (#[trigger] r@[i])@ == xor_bytes(
                values@[i]@,
                values@[(modifier + i) % 5]@,
            ),
{
    let rot: usize = modifier % WORD_COUNT;
    let mut out: Vec<Vec<u8>> = Vec::new();
    let mut i: usize = 0;
    while i < WORD_COUNT
        invariant
            i <= WORD_COUNT,
            rot == modifier % 5,
            values@.len() == WORD_COUNT,
            forall|j: int| 0 <= j < 5 ==> (#[trigger] values@[j])@.len() == WORD_LEN,
            out@.len() == i,
            forall|j: int|
                0 <= j < i ==> (#[trigger] out@[j])@ == xor_bytes(
                    values@[j]@,
                    values@[(modifier + j) % 5]@,
                ),
        decreases WORD_COUNT - i,
    {
        let other: usize = (rot + i) % WORD_COUNT;
        let a: &[u8] = values[i];
        let b: &[u8] = values[other];
        let mut group: Vec<u8> = Vec::new();
        let mut k: usize = 0;
        while k < WORD_LEN
            invariant
                k <= WORD_LEN,
                a@.len() == WORD_LEN,
                b@.len() == WORD_LEN,
                group@ == xor_bytes(a@, b@).subrange(0, k as int),
            decreases WORD_LEN - k,
        {
            group.push(a[k] ^ b[k]);
            k = k + 1;
            assert(group@ =~= xor_bytes(a@, b@).subrange(0, k as int));
        }
        assert(group@ =~= xor_bytes(a@, b@));
        out.push(group);
        i = i + 1;
    }
    out
}

/// Splits a 20-byte digest into five words and diffuses them with the given
/// rotation, concatenating the resulting words in order.
pub fn transform_hash(hash: &[u8], modifier: usize) -> (r: Vec<u8>)
    requires
        hash@.len() == DIGEST_LEN,
    ensures
        r@ == diffuse(hash@, modifier as int),
{
    let mut words: Vec<&[u8]> = Vec::new();
    let mut i: usize = 0;
    while i < WORD_COUNT
        invariant
            i <= WORD_COUNT,
            hash@.len() == DIGEST_LEN,
            words@.len() == i,
            forall|j: int|
                0 <= j < i ==> (#[trigger] words@[j])@ == hash@.subrange(4 * j, 4 * j + 4),
        decreases WORD_COUNT - i,
    {
        words.push(vstd::slice::slice_subrange(hash, i * WORD_LEN, i * WORD_LEN + WORD_LEN));
        i = i + 1;
    }
    let ghost ws = words@;
    let mixed = multi_xor(words, modifier);
    let mut out: Vec<u8> = Vec::new();
    let mut i: usize = 0;
    while i < WORD_COUNT
        invariant
            i <= WORD_COUNT,
            hash@.len() == DIGEST_LEN,
            mixed@.len() == WORD_COUNT,
            forall|j: int|
                0 <= j < 5 ==> (#[trigger] mixed@[j])@ == xor_bytes(
                    ws[j]@,
                    ws[(modifier + j) % 5]@,
                ),
            forall|j: int| 0 <= j < 5 ==> (#[trigger] ws[j])@ == hash@.subrange(4 * j, 4 * j + 4),
            out@ == diffuse(hash@, modifier as int).subrange(0, 4 * i),
        decreases WORD_COUNT - i,
    {
        let word: &Vec<u8> = &mixed[i];
        let ghost o = ((modifier + i) % 5) as int;
        let mut k: usize = 0;
        while k < WORD_LEN
            invariant
                i < WORD_COUNT,
                k <= WORD_LEN,
                hash@.len() == DIGEST_LEN,
                o == (modifier + i) % 5,
                word@ == xor_bytes(hash@.subrange(4 * i, 4 * i + 4), hash@.subrange(4 * o, 4 * o + 4)),
                out@ == diffuse(hash@, modifier as int).subrange(0, 4 * i + k),
            decreases WORD_LEN - k,
        {
            out.push(word[k]);
            proof {
                let j = 4 * i + k;
                assert(j / 4 == i as int);
                assert(j % 4 == k as int);
            }
            k = k + 1;
            assert(out@ =~= diffuse(hash@, modifier as int).subrange(0, 4 * i + k));
        }
        i = i + 1;
    }
    assert(out@ =~= diffuse(hash@, modifier as int));
    out
}

/// Derives the 16-byte decryption key from the account email and the flock
/// read from a container header.
pub fn generate_key(email: &str, flock: &str) -> (r: Vec<u8>)
    ensures
        r@ == derive_key(email.spec_bytes(), flock.spec_bytes()),
        r@.len() == KEY_LEN,
{
    let h1 = sha1_digest(email.as_bytes());
    let t1 = transform_hash(h1.as_slice(), 2);
    let h2 = sha1_digest(t1.as_slice());
    let t2 = transform_hash(h2.as_slice(), 4);
    let mut t3: Vec<u8> = vstd::slice::slice_to_vec(vstd::slice::slice_subrange(t2.as_slice(), 0, KEY_LEN));
    let fb: &[u8] = flock.as_bytes();
    let mut i: usize = 0;
    while i < fb.len()
        invariant
            i <= fb@.len(),
            t3@ == t2@.subrange(0, 16) + fb@.subrange(0, i as int),
        decreases fb@.len() - i,
    {
        t3.push(fb[i]);
        i = i + 1;
        assert(t3@ =~= t2@.subrange(0, 16) + fb@.subrange(0, i as int));
    }
    assert(fb@.subrange(0, fb@.len() as int) =~= fb@);
    let h3 = sha1_digest(t3.as_slice());
    vstd::slice::slice_to_vec(vstd::slice::slice_subrange(h3.as_slice(), 0, KEY_LEN))
}


/// Key derivation is deterministic: two emails with the same characters and
/// two flocks with the same characters give the same key.
pub proof fn lemma_generate_key_deterministic(email1: &str, flock1: &str, email2: &str, flock2: &str)
    requires
        email1@ == email2@,
        flock1@ == flock2@,
    ensures
        derive_key(email1.spec_bytes(), flock1.spec_bytes()) == derive_key(
            email2.spec_bytes(),
            flock2.spec_bytes(),
        ),
{
}

} // verus!
