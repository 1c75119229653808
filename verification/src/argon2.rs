//! Password-based key derivation with Argon2id.

use crate::aes::AesKey;
use rand::Rng;
use vstd::prelude::*;
use vstd::string::StringSliceAdditionalSpecFns;

verus! {

/// Salt of the key derivation: 16 bytes.
pub type Salt = [u8; 16];

/// The longest password, in bytes, that Argon2 takes.
pub const MAX_PASSWORD_LEN: usize = 0xFFFF_FFFF;

/// The 32-byte key that Argon2id, version 0x13 with the default cost
/// parameters, derives from the bytes of a password and a salt.
pub uninterp spec fn argon2id_key(password: Seq<u8>, salt: Seq<u8>) -> Seq<u8>;

/// Calls `Argon2::hash_password_into` with a 32-byte output buffer. Trusted:
/// the key is a function of password and salt alone. A password over the
/// limit is the one input that the call refuses.
#[verifier::external_body]
fn argon2id(password: &[u8], salt: &[u8; 16]) -> (key: [u8; 32])
    requires
        password@.len() <= MAX_PASSWORD_LEN,
    ensures
        key@ == argon2id_key(password@, salt@),
{
    let mut key = [0u8; 32];
    ::argon2::Argon2::new(
        ::argon2::Algorithm::Argon2id,
        ::argon2::Version::V0x13,
        ::argon2::Params::DEFAULT,
    ).hash_password_into(password, salt, &mut key).expect("the password is within the limit");
    key
}

/// Calls `rand::rng` and fills a salt from it. Nothing is known of the bytes.
#[verifier::external_body]
fn random_salt() -> (salt: [u8; 16]) {
    let mut salt = [0u8; 16];
    rand::rng().fill_bytes(&mut salt);
    salt
}

/// Derives the AEAD key of a password. Without a salt a fresh random one is
/// drawn. Returns the key with the salt that was used: the same password and
/// salt give the same key on every call.
pub fn derive_aes_key(password: &str, salt: Option<Salt>) -> (out: (AesKey, Salt))
    requires
        password.spec_bytes().len() <= MAX_PASSWORD_LEN,
    ensures
        salt matches Some(given) ==> out.1 == given,
        out.0@ == argon2id_key(password.spec_bytes(), out.1@),
{
    let salt = match salt {
        Some(given) => given,
        None => random_salt(),
    };
    let key = argon2id(password.as_bytes(), &salt);
    (key, salt)
}

} // verus!
