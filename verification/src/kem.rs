//! The key-encapsulation mechanism, ML-KEM-1024: what the library states of
//! it, the calls into it, and the conversions between keys and bytes.

use crate::bytes::append;
use crate::codec::{decode_encapsulation_key, decode_fixed, decodes_as};
use crate::error::Error;
use crate::types::{Ciphertext, DecapsulationKey, EncapsulationKey, Secret};
use ml_kem::kem::{Decapsulate, Encapsulate, Kem, KeyExport};
use vstd::prelude::*;

verus! {

/// The `i`-th coefficient packed in an encoded encapsulation key. Two 12-bit
/// coefficients share three bytes, low bits first.
pub open spec fn key_coefficient(key: Seq<u8>, i: int) -> int {
    let at = 3 * (i / 2);
    if i % 2 == 0 {
        key[at] as int + 256 * (key[at + 1] as int % 16)
    } else {
        key[at + 1] as int / 16 + 16 * (key[at + 2] as int)
    }
}

/// The KEM's validity check on an encoded encapsulation key: it has 1568
/// bytes, and each of the 1024 coefficients in its first 1536 bytes is below
/// the modulus 3329. The last 32 bytes are free.
pub open spec fn encapsulation_key_valid(key: Seq<u8>) -> bool {
    &&& key.len() == 1568
    &&& forall|i: int| 0 <= i < 1024 ==> #[trigger] key_coefficient(key, i) < 3329
}

/// The encoded encapsulation key of the key pair that ML-KEM-1024 derives
/// from a 64-byte seed.
pub uninterp spec fn kem_encapsulation_key(seed: Seq<u8>) -> Seq<u8>;

/// The shared secret that the key pair derived from `seed` decapsulates from
/// `ciphertext`.
pub uninterp spec fn kem_decapsulate(seed: Seq<u8>, ciphertext: Seq<u8>) -> Seq<u8>;

/// Whether `secret` is what every decapsulation key that belongs to the
/// encapsulation key `key` recovers from `ciphertext`.
pub open spec fn encapsulates(key: Seq<u8>, ciphertext: Seq<u8>, secret: Seq<u8>) -> bool {
    forall|seed: Seq<u8>|
        seed.len() == 64 && #[trigger] kem_encapsulation_key(seed) == key ==> kem_decapsulate(
            seed,
            ciphertext,
        ) == secret
}

/// Calls `MlKem1024::generate_keypair` and hands out the seed of the fresh
/// decapsulation key with the encoded encapsulation key. Trusted: the
/// encapsulation key is the one that the seed derives, and it passes the
/// validity check, being the encoding of reduced coefficients.
#[verifier::external_body]
pub(crate) fn kem_generate() -> (pair: ([u8; 64], [u8; 1568]))
    ensures
        pair.1@ == kem_encapsulation_key(pair.0@),
        encapsulation_key_valid(pair.1@),
{
    let (dk, ek) = ml_kem::MlKem1024::generate_keypair();
    (dk.to_bytes().0, ek.to_bytes().0)
}

/// Calls `DecapsulationKey::from_seed` and encodes the encapsulation key of
/// the pair. Trusted: the result is a function of the seed alone, and it
/// passes the validity check.
#[verifier::external_body]
pub(crate) fn kem_public_key(seed: &[u8; 64]) -> (key: [u8; 1568])
    ensures
        key@ == kem_encapsulation_key(seed@),
        encapsulation_key_valid(key@),
{
    let dk = ml_kem::ml_kem_1024::DecapsulationKey::from_seed(ml_kem::array::Array(*seed));
    dk.encapsulation_key().to_bytes().0
}

/// Calls `EncapsulationKey::new`, which decodes the key, encodes it again and
/// accepts it when the bytes come back unchanged. Trusted: that is the case
/// exactly when every coefficient is below the modulus.
#[verifier::external_body]
pub(crate) fn kem_key_check(key: &[u8; 1568]) -> (valid: bool)
    ensures
        valid == encapsulation_key_valid(key@),
{
    ml_kem::ml_kem_1024::EncapsulationKey::new(&ml_kem::array::Array(*key)).is_ok()
}

/// Calls `Encapsulate::encapsulate` on the decoded key: a fresh shared secret
/// and its ciphertext. Trusted: the KEM's correctness as its documentation
/// gives it, that the holder of the decapsulation key recovers this secret
/// from this ciphertext (the standard bounds the rate at which ML-KEM-1024
/// fails to by 2^-174.8).
#[verifier::external_body]
pub(crate) fn kem_encapsulate(key: &[u8; 1568]) -> (out: ([u8; 1568], [u8; 32]))
    requires
        encapsulation_key_valid(key@),
    ensures
        encapsulates(key@, out.0@, out.1@),
{
    let ek = ml_kem::ml_kem_1024::EncapsulationKey::new(&ml_kem::array::Array(*key))
        .expect("the key was checked");
    let (ct, ss) = ek.encapsulate();
    (ct.0, ss.0)
}

/// Calls `Decapsulate::decapsulate` with the key rebuilt from the seed.
/// Trusted: the result is a function of the seed and the ciphertext alone.
#[verifier::external_body]
pub(crate) fn kem_decapsulate_with(seed: &[u8; 64], ciphertext: &[u8; 1568]) -> (secret: [u8; 32])
    ensures
        secret@ == kem_decapsulate(seed@, ciphertext@),
{
    let dk = ml_kem::ml_kem_1024::DecapsulationKey::from_seed(ml_kem::array::Array(*seed));
    dk.decapsulate(&ml_kem::array::Array(*ciphertext)).0
}

/// A fresh key pair: the decapsulation key, and the encapsulation key that
/// belongs to it.
pub fn generate_keys() -> (pair: (DecapsulationKey, EncapsulationKey))
    ensures
        pair.1@ == kem_encapsulation_key(pair.0@),
        encapsulation_key_valid(pair.1@),
{
    let (seed, key) = kem_generate();
    (DecapsulationKey(seed), EncapsulationKey(key))
}

/// The seed of a decapsulation key, as bytes.
pub fn seed_bytes(decap: DecapsulationKey) -> (bytes: Vec<u8>)
    ensures
        bytes@ == decap@,
{
    let mut bytes: Vec<u8> = Vec::new();
    append(&mut bytes, decap.0.as_slice());
    assert(bytes@ =~= decap@);
    bytes
}

/// The decapsulation key of a 64-byte seed. Fails with `MalformedEncoding`
/// unless the bytes are exactly 64.
pub fn bytes_to_seed(bytes: Vec<u8>) -> (out: Result<DecapsulationKey, Error>)
    ensures
        decodes_as(out, decode_fixed(bytes@, 64)),
{
    DecapsulationKey::from_bytes(bytes.as_slice())
}

/// The encoded form of an encapsulation key.
pub fn encap_bytes(encap: EncapsulationKey) -> (bytes: Vec<u8>)
    ensures
        bytes@ == encap@,
{
    let mut bytes: Vec<u8> = Vec::new();
    append(&mut bytes, encap.0.as_slice());
    assert(bytes@ =~= encap@);
    bytes
}

/// The encapsulation key that 1568 bytes encode. Fails with
/// `MalformedEncoding` unless the bytes are exactly 1568, and with
/// `InvalidKey` where they are and do not pass the KEM's validity check.
pub fn bytes_to_encap(bytes: Vec<u8>) -> (out: Result<EncapsulationKey, Error>)
    ensures
        decodes_as(out, decode_encapsulation_key(bytes@)),
{
    EncapsulationKey::from_bytes(bytes.as_slice())
}

impl EncapsulationKey {
    /// Whether the key passes the KEM's validity check.
    pub fn is_valid(&self) -> (valid: bool)
        ensures
            valid == encapsulation_key_valid(self@),
    {
        kem_key_check(&self.0)
    }

    /// Draws a fresh shared secret and encapsulates it to this key. Fails
    /// with `InvalidKey` exactly when the key does not pass the validity
    /// check. The holder of the matching decapsulation key recovers the
    /// secret from the ciphertext.
    pub fn encapsulate(&self) -> (out: Result<(Ciphertext, Secret), Error>)
        ensures
            out is Ok <==> encapsulation_key_valid(self@),
            out matches Err(e) ==> e == Error::InvalidKey,
            out matches Ok(pair) ==> encapsulates(self@, pair.0@, pair.1@),
    {
        if !kem_key_check(&self.0) {
            return Err(Error::InvalidKey);
        }
        Ok(kem_encapsulate(&self.0))
    }
}

impl DecapsulationKey {
    /// The encapsulation key that belongs to this key.
    pub fn encapsulation_key(&self) -> (key: EncapsulationKey)
        ensures
            key@ == kem_encapsulation_key(self@),
            encapsulation_key_valid(key@),
    {
        EncapsulationKey(kem_public_key(&self.0))
    }

    /// Recovers the shared secret that `ciphertext` encapsulates. The same
    /// key and ciphertext give the same secret on every call.
    pub fn decapsulate(&self, ciphertext: [u8; 1568]) -> (secret: Secret)
        ensures
            secret@ == kem_decapsulate(self@, ciphertext@),
    {
        kem_decapsulate_with(&self.0, &ciphertext)
    }
}

/// KEM correctness: what is encapsulated to the encapsulation key of a seed
/// is what the decapsulation key of that seed recovers.
pub proof fn lemma_kem_correctness(
    seed: Seq<u8>,
    key: Seq<u8>,
    ciphertext: Seq<u8>,
    secret: Seq<u8>,
)
    requires
        seed.len() == 64,
        key == kem_encapsulation_key(seed),
        encapsulates(key, ciphertext, secret),
    ensures
        kem_decapsulate(seed, ciphertext) == secret,
{
}

} // verus!
