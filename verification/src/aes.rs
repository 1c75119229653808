//! Authenticated encryption with AES-256-GCM: 256-bit key, 96-bit random
//! nonce, 128-bit tag appended to the ciphertext, no associated data.

use aws_lc_rs::aead::{Aad, Nonce, RandomizedNonceKey, AES_256_GCM};
use crate::error::Error;
use vstd::prelude::*;

verus! {

/// Key of the cipher: 32 bytes.
pub type AesKey = [u8; 32];

/// The most bytes that AES-GCM seals under one nonce: 2^36 - 32.
pub const MAX_PLAINTEXT_LEN: u64 = 0xF_FFFF_FFE0;

/// What AES-256-GCM opens `sealed`, a ciphertext followed by its tag, to
/// under `key` and `nonce`: the plaintext, or nothing where the tag does not
/// match.
pub uninterp spec fn aes_gcm_open(key: Seq<u8>, nonce: Seq<u8>, sealed: Seq<u8>) -> Option<
    Seq<u8>,
>;

/// Calls `RandomizedNonceKey::seal_in_place_append_tag` on a copy of `data`,
/// with the key that `RandomizedNonceKey::new` makes of the 32 bytes.
/// Trusted: the result is 16 bytes longer than the plaintext, and opening it
/// under the same key and the nonce that was drawn gives the plaintext back.
#[verifier::external_body]
fn aead_seal(data: &[u8], key: &[u8]) -> (out: (Vec<u8>, [u8; 12]))
    requires
        key@.len() == 32,
        data@.len() <= MAX_PLAINTEXT_LEN,
    ensures
        out.0@.len() == data@.len() + 16,
        aes_gcm_open(key@, out.1@, out.0@) == Some(data@),
{
    let key = RandomizedNonceKey::new(&AES_256_GCM, key).expect("the key has 32 bytes");
    let mut in_out = Vec::from(data);
    let nonce = key
        .seal_in_place_append_tag(Aad::empty(), &mut in_out)
        .expect("the plaintext is within the cipher's limit");
    (in_out, *nonce.as_ref())
}

/// Calls `RandomizedNonceKey::open_in_place` on a copy of `sealed`, with the
/// key that `RandomizedNonceKey::new` makes of the 32 bytes. Trusted: the
/// outcome is a function of key, nonce and sealed bytes alone, and a
/// plaintext that comes out is 16 bytes shorter than what went in.
#[verifier::external_body]
fn aead_open(sealed: &[u8], key: &[u8], nonce: &[u8; 12]) -> (out: Option<Vec<u8>>)
    requires
        key@.len() == 32,
    ensures
        match out {
            Some(plaintext) => aes_gcm_open(key@, nonce@, sealed@) == Some(plaintext@)
                && plaintext@.len() + 16 == sealed@.len(),
            None => aes_gcm_open(key@, nonce@, sealed@) is None,
        },
{
    let key = RandomizedNonceKey::new(&AES_256_GCM, key).expect("the key has 32 bytes");
    let mut in_out = Vec::from(sealed);
    match key.open_in_place(Nonce::assume_unique_for_key(*nonce), Aad::empty(), &mut in_out) {
        Ok(plaintext) => Some(plaintext.to_vec()),
        Err(_) => None,
    }
}

/// Seals `data` under the 32-byte `key` with a fresh random nonce. Returns
/// the ciphertext with its tag, and the nonce.
pub fn encrypt(data: &[u8], key: &[u8]) -> (out: (Vec<u8>, [u8; 12]))
    requires
        key@.len() == 32,
        data@.len() <= MAX_PLAINTEXT_LEN,
    ensures
        out.0@.len() == data@.len() + 16,
        decrypted(out.0@, key@, out.1@) == Ok::<Seq<u8>, Error>(data@),
{
    aead_seal(data, key)
}

/// What [`decrypt`] returns.
pub open spec fn decrypted(encrypted: Seq<u8>, key: Seq<u8>, nonce: Seq<u8>) -> Result<
    Seq<u8>,
    Error,
> {
    match aes_gcm_open(key, nonce, encrypted) {
        Some(plaintext) => Ok(plaintext),
        None => Err(Error::AuthenticationFailure),
    }
}

/// Opens what [`encrypt`] sealed. Fails with `AuthenticationFailure` where
/// the tag does not match the key, the nonce and the ciphertext.
pub fn decrypt(encrypted: &[u8], key: &[u8], nonce: [u8; 12]) -> (out: Result<Vec<u8>, Error>)
    requires
        key@.len() == 32,
    ensures
        match out {
            Ok(plaintext) => decrypted(encrypted@, key@, nonce@) == Ok::<Seq<u8>, Error>(
                plaintext@,
            ) && plaintext@.len() + 16 == encrypted@.len(),
            Err(e) => decrypted(encrypted@, key@, nonce@) == Err::<Seq<u8>, Error>(e),
        },
{
    match aead_open(encrypted, key, &nonce) {
        Some(plaintext) => Ok(plaintext),
        None => Err(Error::AuthenticationFailure),
    }
}

} // verus!
