//! The sealed-secret envelope: bytes sealed under a 32-byte key, and bytes
//! sealed under a key that is derived from a password.

use crate::aes::{aes_gcm_open, decrypt, decrypted, encrypt, MAX_PLAINTEXT_LEN};
use crate::argon2::{argon2id_key, derive_aes_key, Salt, MAX_PASSWORD_LEN};
use crate::bytes::{take_array, zeroize, zeroize_array};
use crate::error::Error;
use crate::types::{
    EncryptedPayload, EncryptedPayloadView, PasswordProtectedData, PasswordProtectedDataView,
    Secret,
};
use vstd::prelude::*;
use vstd::string::StringSliceAdditionalSpecFns;

verus! {

/// What [`open`] returns: the plaintext, or `AuthenticationFailure` where the
/// tag does not match key, nonce and ciphertext.
pub open spec fn opened(payload: EncryptedPayloadView, key: Seq<u8>) -> Result<Seq<u8>, Error> {
    decrypted(payload.ciphertext, key, payload.nonce)
}

/// What [`open_with_password`] returns: the plaintext, or
/// `AuthenticationFailure` where the tag does not match the key that the
/// password and the salt of the data derive.
pub open spec fn opened_with_password(
    data: PasswordProtectedDataView,
    password: Seq<u8>,
) -> Result<Seq<u8>, Error> {
    decrypted(data.ciphertext, argon2id_key(password, data.salt), data.nonce)
}

/// Seals `data` under `key` with a fresh random nonce and no associated
/// data. Opening the result under the same key gives `data` back.
pub fn seal(data: &[u8], key: &Secret) -> (payload: EncryptedPayload)
    requires
        data@.len() <= MAX_PLAINTEXT_LEN,
    ensures
        payload.ciphertext@.len() == data@.len() + 16,
        opened(payload@, key@) == Ok::<Seq<u8>, Error>(data@),
{
    let (ciphertext, nonce) = encrypt(data, key.as_slice());
    EncryptedPayload { nonce, ciphertext }
}

/// Opens a payload under `key`. Fails with `AuthenticationFailure` where the
/// tag does not match: another key, another nonce, or altered bytes.
pub fn open(payload: &EncryptedPayload, key: &Secret) -> (out: Result<Vec<u8>, Error>)
    ensures
        match out {
            Ok(plaintext) => opened(payload@, key@) == Ok::<Seq<u8>, Error>(plaintext@)
                && plaintext@.len() + 16 == payload.ciphertext@.len(),
            Err(e) => opened(payload@, key@) == Err::<Seq<u8>, Error>(e),
        },
{
    decrypt(payload.ciphertext.as_slice(), key.as_slice(), payload.nonce)
}

/// Seals `data` under the key that `password` and a salt derive. Without a
/// salt a fresh random one is drawn. Opening the result with the same
/// password gives `data` back.
pub fn seal_with_password(data: &[u8], password: &str, salt: Option<Salt>) -> (out:
    PasswordProtectedData)
    requires
        data@.len() <= MAX_PLAINTEXT_LEN,
        password.spec_bytes().len() <= MAX_PASSWORD_LEN,
    ensures
        salt matches Some(given) ==> out.salt == given,
        out.ciphertext@.len() == data@.len() + 16,
        opened_with_password(out@, password.spec_bytes()) == Ok::<Seq<u8>, Error>(data@),
{
    let (mut key, salt) = derive_aes_key(password, salt);
    let (ciphertext, nonce) = encrypt(data, key.as_slice());
    zeroize_array(&mut key);
    PasswordProtectedData { salt, nonce, ciphertext }
}

/// Opens password-protected data. The key is derived again from the password
/// and the salt in the data. A wrong password shows as
/// `AuthenticationFailure`, like any other mismatch of the tag.
pub fn open_with_password(data: &PasswordProtectedData, password: &str) -> (out: Result<
    Vec<u8>,
    Error,
>)
    requires
        password.spec_bytes().len() <= MAX_PASSWORD_LEN,
    ensures
        match out {
            Ok(plaintext) => opened_with_password(data@, password.spec_bytes()) == Ok::<
                Seq<u8>,
                Error,
            >(plaintext@) && plaintext@.len() + 16 == data.ciphertext@.len(),
            Err(e) => opened_with_password(data@, password.spec_bytes()) == Err::<Seq<u8>, Error>(
                e,
            ),
        },
{
    let (mut key, _) = derive_aes_key(password, Some(data.salt));
    let out = decrypt(data.ciphertext.as_slice(), key.as_slice(), data.nonce);
    zeroize_array(&mut key);
    out
}

/// What [`unlock`] returns: what the data opens to with the password, where
/// that has exactly `len` bytes, and `MalformedEncoding` where it opens to
/// another length.
pub open spec fn unlocked(data: PasswordProtectedDataView, password: Seq<u8>, len: nat) -> Result<
    Seq<u8>,
    Error,
> {
    match opened_with_password(data, password) {
        Err(e) => Err(e),
        Ok(bytes) => if bytes.len() == len {
            Ok(bytes)
        } else {
            Err(Error::MalformedEncoding)
        },
    }
}

/// Opens password-protected data that seals a value of exactly `N` bytes,
/// such as a secret or a seed. The buffer that held the opened bytes is
/// overwritten before it is dropped.
pub fn unlock<const N: usize>(data: &PasswordProtectedData, password: &str) -> (out: Result<
    [u8; N],
    Error,
>)
    requires
        password.spec_bytes().len() <= MAX_PASSWORD_LEN,
    ensures
        match out {
            Ok(value) => unlocked(data@, password.spec_bytes(), N as nat) == Ok::<Seq<u8>, Error>(
                value@,
            ),
            Err(e) => unlocked(data@, password.spec_bytes(), N as nat) == Err::<Seq<u8>, Error>(e),
        },
{
    let mut bytes = match open_with_password(data, password) {
        Ok(bytes) => bytes,
        Err(e) => {
            return Err(e);
        },
    };
    let out = if bytes.len() == N {
        let value: [u8; N] = take_array(bytes.as_slice(), 0);
        assert(value@ =~= bytes@);
        Ok(value)
    } else {
        Err(Error::MalformedEncoding)
    };
    zeroize(&mut bytes);
    out
}

/// Opening undoes sealing: where the cipher opens the bytes of a payload to
/// `data` under `key`, [`open`] returns `data`, of whatever length and under
/// whatever key.
pub proof fn lemma_open_undoes_seal(payload: EncryptedPayloadView, key: Seq<u8>, data: Seq<u8>)
    requires
        aes_gcm_open(key, payload.nonce, payload.ciphertext) == Some(data),
    ensures
        opened(payload, key) == Ok::<Seq<u8>, Error>(data),
{
}

/// The derived key is a function of password and salt: what two derivations
/// from the same password and salt return is the same key.
pub proof fn lemma_derived_key_is_determined(
    password: Seq<u8>,
    salt: Seq<u8>,
    first: Seq<u8>,
    second: Seq<u8>,
)
    requires
        first == argon2id_key(password, salt),
        second == argon2id_key(password, salt),
    ensures
        first == second,
{
}

/// Opening with the password undoes sealing with it: where the cipher opens
/// the bytes of the data to `plaintext` under the key that `password` and
/// the salt in the data derive, [`open_with_password`] returns `plaintext`,
/// and [`unlock`] returns it where its length is asked for.
pub proof fn lemma_open_with_password_undoes_seal(
    data: PasswordProtectedDataView,
    password: Seq<u8>,
    plaintext: Seq<u8>,
)
    requires
        aes_gcm_open(argon2id_key(password, data.salt), data.nonce, data.ciphertext) == Some(
            plaintext,
        ),
    ensures
        opened_with_password(data, password) == Ok::<Seq<u8>, Error>(plaintext),
        unlocked(data, password, plaintext.len()) == Ok::<Seq<u8>, Error>(plaintext),
{
}

} // verus!
