//! Self-contained containers for key material and single messages: a tagged
//! public key, a password-encrypted seed, and a message that may carry the
//! KEM ciphertext of its own key.

use crate::aes::{decrypted, encrypt, MAX_PLAINTEXT_LEN};
use crate::argon2::{derive_aes_key, MAX_PASSWORD_LEN};
use crate::bytes::{append, copy_range, take_array, zeroize_array};
use crate::codec::decodes_as;
use crate::error::Error;
use crate::kem::{
    encapsulates, encapsulation_key_valid, kem_decapsulate, kem_encapsulate, kem_key_check,
};
use crate::sealed::{unlock, unlocked};
use crate::types::{
    Ciphertext, DecapsulationKey, EncapsulationKey, PasswordProtectedData,
    PasswordProtectedDataView,
};
use vstd::prelude::*;
use vstd::utf8::encode_utf8;

verus! {

/// Public key material of one of two kinds, told apart by a tag.
#[derive(Clone, PartialEq, Eq, Debug)]
pub enum PublicKey {
    /// A KEM ciphertext.
    Ciphertext([u8; 1568]),
    /// An encoded encapsulation key.
    EncapsulationKey([u8; 1568]),
}

/// The seed of a decapsulation key, sealed under a password.
#[derive(Clone, PartialEq, Eq, Debug)]
pub struct EncryptedSeed {
    pub nonce: [u8; 12],
    pub salt: [u8; 16],
    pub seed: Vec<u8>,
}

/// A sealed message. Its key is either known to the receiver already, or
/// comes with the message as a KEM ciphertext.
#[derive(Clone, PartialEq, Eq, Debug)]
pub enum EncryptedMessage {
    /// Sealed under a secret that the receiver holds.
    KeyStored { nonce: [u8; 12], message: Vec<u8> },
    /// Sealed under the secret that `ciphertext` encapsulates.
    KeyEncapsulated { nonce: [u8; 12], ciphertext: [u8; 1568], message: Vec<u8> },
}

/// What a [`PublicKey`] holds.
pub enum PublicKeyView {
    Ciphertext(Seq<u8>),
    EncapsulationKey(Seq<u8>),
}

/// What an [`EncryptedSeed`] holds.
pub struct EncryptedSeedView {
    pub nonce: Seq<u8>,
    pub salt: Seq<u8>,
    pub seed: Seq<u8>,
}

/// What an [`EncryptedMessage`] holds.
pub enum EncryptedMessageView {
    KeyStored { nonce: Seq<u8>, message: Seq<u8> },
    KeyEncapsulated { nonce: Seq<u8>, ciphertext: Seq<u8>, message: Seq<u8> },
}

impl View for PublicKey {
    type V = PublicKeyView;

    open spec fn view(&self) -> PublicKeyView {
        match self {
            PublicKey::Ciphertext(bytes) => PublicKeyView::Ciphertext(bytes@),
            PublicKey::EncapsulationKey(bytes) => PublicKeyView::EncapsulationKey(bytes@),
        }
    }
}

impl View for EncryptedSeed {
    type V = EncryptedSeedView;

    open spec fn view(&self) -> EncryptedSeedView {
        EncryptedSeedView { nonce: self.nonce@, salt: self.salt@, seed: self.seed@ }
    }
}

impl View for EncryptedMessage {
    type V = EncryptedMessageView;

    open spec fn view(&self) -> EncryptedMessageView {
        match self {
            EncryptedMessage::KeyStored { nonce, message } => EncryptedMessageView::KeyStored {
                nonce: nonce@,
                message: message@,
            },
            EncryptedMessage::KeyEncapsulated {
                nonce,
                ciphertext,
                message,
            } => EncryptedMessageView::KeyEncapsulated {
                nonce: nonce@,
                ciphertext: ciphertext@,
                message: message@,
            },
        }
    }
}

impl PublicKeyView {
    /// The key material has its 1568 bytes.
    pub open spec fn wf(self) -> bool {
        match self {
            PublicKeyView::Ciphertext(bytes) => bytes.len() == 1568,
            PublicKeyView::EncapsulationKey(bytes) => bytes.len() == 1568,
        }
    }
}

impl EncryptedSeedView {
    /// Nonce and salt have their 12 and 16 bytes.
    pub open spec fn wf(self) -> bool {
        &&& self.nonce.len() == 12
        &&& self.salt.len() == 16
    }

    /// The same sealed bytes as password-protected data.
    pub open spec fn protected(self) -> PasswordProtectedDataView {
        PasswordProtectedDataView { salt: self.salt, nonce: self.nonce, ciphertext: self.seed }
    }
}

impl EncryptedMessageView {
    /// The nonce has its 12 bytes, and the KEM ciphertext its 1568.
    pub open spec fn wf(self) -> bool {
        match self {
            EncryptedMessageView::KeyStored { nonce, message } => nonce.len() == 12,
            EncryptedMessageView::KeyEncapsulated { nonce, ciphertext, message } => nonce.len()
                == 12 && ciphertext.len() == 1568,
        }
    }
}

/// Layout of a public key: a tag byte, 0 for a ciphertext and 1 for an
/// encapsulation key, then the 1568 bytes.
pub open spec fn encode_public_key(key: PublicKeyView) -> Seq<u8> {
    match key {
        PublicKeyView::Ciphertext(bytes) => seq![0u8] + bytes,
        PublicKeyView::EncapsulationKey(bytes) => seq![1u8] + bytes,
    }
}

/// Decoding of a public key: exactly 1569 bytes, of which the first is a
/// known tag.
pub open spec fn decode_public_key(bytes: Seq<u8>) -> Result<PublicKeyView, Error> {
    if bytes.len() != 1569 {
        Err(Error::MalformedEncoding)
    } else if bytes[0] == 0 {
        Ok(PublicKeyView::Ciphertext(bytes.subrange(1, 1569)))
    } else if bytes[0] == 1 {
        Ok(PublicKeyView::EncapsulationKey(bytes.subrange(1, 1569)))
    } else {
        Err(Error::MalformedEncoding)
    }
}

/// Layout of an encrypted seed: nonce, salt, then the sealed seed.
pub open spec fn encode_encrypted_seed(seed: EncryptedSeedView) -> Seq<u8> {
    seed.nonce + seed.salt + seed.seed
}

/// Decoding of an encrypted seed: 12 bytes of nonce, 16 of salt, and all
/// that follows is the sealed seed.
pub open spec fn decode_encrypted_seed(bytes: Seq<u8>) -> Result<EncryptedSeedView, Error> {
    if bytes.len() < 28 {
        Err(Error::MalformedEncoding)
    } else {
        Ok(
            EncryptedSeedView {
                nonce: bytes.subrange(0, 12),
                salt: bytes.subrange(12, 28),
                seed: bytes.subrange(28, bytes.len() as int),
            },
        )
    }
}

/// Layout of an encrypted message: a tag byte, the nonce, the KEM ciphertext
/// where the tag is 1, then the sealed message.
pub open spec fn encode_encrypted_message(message: EncryptedMessageView) -> Seq<u8> {
    match message {
        EncryptedMessageView::KeyStored { nonce, message } => seq![0u8] + nonce + message,
        EncryptedMessageView::KeyEncapsulated { nonce, ciphertext, message } => seq![1u8] + nonce
            + ciphertext + message,
    }
}

/// Decoding of an encrypted message.
pub open spec fn decode_encrypted_message(bytes: Seq<u8>) -> Result<EncryptedMessageView, Error> {
    if bytes.len() == 0 {
        Err(Error::MalformedEncoding)
    } else if bytes[0] == 0 {
        if bytes.len() < 13 {
            Err(Error::MalformedEncoding)
        } else {
            Ok(
                EncryptedMessageView::KeyStored {
                    nonce: bytes.subrange(1, 13),
                    message: bytes.subrange(13, bytes.len() as int),
                },
            )
        }
    } else if bytes[0] == 1 {
        if bytes.len() < 1581 {
            Err(Error::MalformedEncoding)
        } else {
            Ok(
                EncryptedMessageView::KeyEncapsulated {
                    nonce: bytes.subrange(1, 13),
                    ciphertext: bytes.subrange(13, 1581),
                    message: bytes.subrange(1581, bytes.len() as int),
                },
            )
        }
    } else {
        Err(Error::MalformedEncoding)
    }
}

/// What [`EncryptedSeed::decrypt`] returns: the seed that the password
/// opens, `AuthenticationFailure` where it opens nothing, and
/// `MalformedEncoding` where what it opens has not the 64 bytes of a seed.
pub open spec fn seed_decrypted(seed: EncryptedSeedView, password: Seq<u8>) -> Result<
    Seq<u8>,
    Error,
> {
    unlocked(seed.protected(), password, 64)
}

impl PublicKey {
    /// A public key that holds a KEM ciphertext.
    pub fn new_ciphertext(bytes: Vec<u8>) -> (key: PublicKey)
        requires
            bytes@.len() == 1568,
        ensures
            key@ == PublicKeyView::Ciphertext(bytes@),
    {
        let value: [u8; 1568] = take_array(bytes.as_slice(), 0);
        assert(value@ =~= bytes@);
        PublicKey::Ciphertext(value)
    }

    /// A public key that holds an encoded encapsulation key.
    pub fn new_encapsulation_key(bytes: Vec<u8>) -> (key: PublicKey)
        requires
            bytes@.len() == 1568,
        ensures
            key@ == PublicKeyView::EncapsulationKey(bytes@),
    {
        let value: [u8; 1568] = take_array(bytes.as_slice(), 0);
        assert(value@ =~= bytes@);
        PublicKey::EncapsulationKey(value)
    }

    /// Turns an encapsulation key into the ciphertext of a fresh secret that
    /// is encapsulated to it; the secret itself is dropped. A ciphertext is
    /// returned as it is. Fails with `InvalidKey` exactly when an
    /// encapsulation key does not pass the KEM's validity check.
    pub fn into_ciphertext(self) -> (out: Result<PublicKey, Error>)
        ensures
            self@ is Ciphertext ==> out == Ok::<PublicKey, Error>(self),
            self@ matches PublicKeyView::EncapsulationKey(key) ==> ((out is Ok
                <==> encapsulation_key_valid(key)) && (out matches Err(e) ==> e
                == Error::InvalidKey) && (out matches Ok(turned) ==> (turned@ matches PublicKeyView::Ciphertext(
                ciphertext,
            ) && exists|secret: Seq<u8>| #[trigger] encapsulates(key, ciphertext, secret)))),
    {
        match self {
            PublicKey::Ciphertext(_) => Ok(self),
            PublicKey::EncapsulationKey(bytes) => {
                if !kem_key_check(&bytes) {
                    return Err(Error::InvalidKey);
                }
                let (ciphertext, mut secret) = kem_encapsulate(&bytes);
                let ghost fresh = secret@;
                zeroize_array(&mut secret);
                let turned = PublicKey::Ciphertext(ciphertext);
                assert(encapsulates(self@->EncapsulationKey_0, turned@->Ciphertext_0, fresh));
                Ok(turned)
            },
        }
    }

    /// The encoding of the key.
    pub fn to_bytes(&self) -> (out: Vec<u8>)
        ensures
            out@ == encode_public_key(self@),
    {
        let mut out: Vec<u8> = Vec::new();
        match self {
            PublicKey::Ciphertext(bytes) => {
                out.push(0u8);
                append(&mut out, bytes.as_slice());
            },
            PublicKey::EncapsulationKey(bytes) => {
                out.push(1u8);
                append(&mut out, bytes.as_slice());
            },
        }
        assert(out@ =~= encode_public_key(self@));
        out
    }

    /// Decodes a key. Fails with `MalformedEncoding` unless the bytes are
    /// exactly 1569 and start with a known tag.
    pub fn from_bytes(bytes: &[u8]) -> (out: Result<PublicKey, Error>)
        ensures
            decodes_as(out, decode_public_key(bytes@)),
    {
        if bytes.len() != 1569 {
            return Err(Error::MalformedEncoding);
        }
        let tag = bytes[0];
        let value: [u8; 1568] = take_array(bytes, 1);
        if tag == 0 {
            Ok(PublicKey::Ciphertext(value))
        } else if tag == 1 {
            Ok(PublicKey::EncapsulationKey(value))
        } else {
            Err(Error::MalformedEncoding)
        }
    }
}

impl EncryptedSeed {
    /// Seals the seed of `decap` under the key that `password` and a fresh
    /// random salt derive. Decrypting the result with the same password
    /// gives the key back.
    pub fn new(password: String, decap: &DecapsulationKey) -> (out: EncryptedSeed)
        requires
            encode_utf8(password@).len() <= MAX_PASSWORD_LEN,
        ensures
            out.seed@.len() == 80,
            seed_decrypted(out@, encode_utf8(password@)) == Ok::<Seq<u8>, Error>(decap@),
    {
        let (mut key, salt) = derive_aes_key(password.as_str(), None);
        let (encrypted, nonce) = encrypt(decap.0.as_slice(), key.as_slice());
        zeroize_array(&mut key);
        EncryptedSeed { nonce, salt, seed: encrypted }
    }

    /// Opens the sealed seed with `password` and rebuilds the decapsulation
    /// key. Fails with `AuthenticationFailure` where the password does not
    /// open it, and with `MalformedEncoding` where what it opens has not the
    /// 64 bytes of a seed.
    pub fn decrypt(&self, password: String) -> (out: Result<DecapsulationKey, Error>)
        requires
            encode_utf8(password@).len() <= MAX_PASSWORD_LEN,
        ensures
            decodes_as(out, seed_decrypted(self@, encode_utf8(password@))),
    {
        let sealed = PasswordProtectedData {
            salt: self.salt,
            nonce: self.nonce,
            ciphertext: copy_range(self.seed.as_slice(), 0, self.seed.len()),
        };
        assert(sealed@.ciphertext =~= self@.seed);
        match unlock::<64>(&sealed, password.as_str()) {
            Ok(seed) => Ok(DecapsulationKey(seed)),
            Err(e) => Err(e),
        }
    }

    /// The encoding of the encrypted seed.
    pub fn to_bytes(&self) -> (out: Vec<u8>)
        ensures
            out@ == encode_encrypted_seed(self@),
    {
        let mut out: Vec<u8> = Vec::new();
        append(&mut out, self.nonce.as_slice());
        append(&mut out, self.salt.as_slice());
        append(&mut out, self.seed.as_slice());
        assert(out@ =~= encode_encrypted_seed(self@));
        out
    }

    /// Decodes an encrypted seed. Fails with `MalformedEncoding` exactly when
    /// the bytes are too few to hold a nonce and a salt.
    pub fn from_bytes(bytes: &[u8]) -> (out: Result<EncryptedSeed, Error>)
        ensures
            decodes_as(out, decode_encrypted_seed(bytes@)),
    {
        if bytes.len() < 28 {
            return Err(Error::MalformedEncoding);
        }
        let nonce: [u8; 12] = take_array(bytes, 0);
        let salt: [u8; 16] = take_array(bytes, 12);
        let seed = copy_range(bytes, 28, bytes.len());
        Ok(EncryptedSeed { nonce, salt, seed })
    }
}

impl EncryptedMessage {
    /// Seals `message` under the secret that `decap` recovers from
    /// `ciphertext`. The receiver holds that secret already, so the
    /// ciphertext does not travel with the message.
    pub fn with_ciphertext(message: String, decap: DecapsulationKey, ciphertext: Ciphertext) -> (out:
        EncryptedMessage)
        requires
            encode_utf8(message@).len() <= MAX_PLAINTEXT_LEN,
        ensures
            out@ matches EncryptedMessageView::KeyStored { nonce, message: sealed } && decrypted(
                sealed,
                kem_decapsulate(decap@, ciphertext@),
                nonce,
            ) == Ok::<Seq<u8>, Error>(encode_utf8(message@)),
    {
        let mut secret = decap.decapsulate(ciphertext);
        let (sealed, nonce) = encrypt(message.as_str().as_bytes(), secret.as_slice());
        zeroize_array(&mut secret);
        EncryptedMessage::KeyStored { nonce, message: sealed }
    }

    /// Seals `message` under a fresh secret that is encapsulated to `encap`,
    /// and sends the KEM ciphertext along. The key must pass the KEM's
    /// validity check.
    pub fn with_encapsulationkey(message: String, encap: EncapsulationKey) -> (out:
        EncryptedMessage)
        requires
            encapsulation_key_valid(encap@),
            encode_utf8(message@).len() <= MAX_PLAINTEXT_LEN,
        ensures
            out@ matches EncryptedMessageView::KeyEncapsulated { nonce, ciphertext, message: sealed }
                && exists|secret: Seq<u8>| #[trigger]
                encapsulates(encap@, ciphertext, secret) && decrypted(sealed, secret, nonce) == Ok::<
                    Seq<u8>,
                    Error,
                >(encode_utf8(message@)),
    {
        let (ciphertext, mut secret) = kem_encapsulate(&encap.0);
        let (sealed, nonce) = encrypt(message.as_str().as_bytes(), secret.as_slice());
        let ghost fresh = secret@;
        zeroize_array(&mut secret);
        let out = EncryptedMessage::KeyEncapsulated { nonce, ciphertext, message: sealed };
        assert(encapsulates(encap@, out@->KeyEncapsulated_ciphertext, fresh));
        out
    }

    /// The encoding of the message.
    pub fn to_bytes(&self) -> (out: Vec<u8>)
        ensures
            out@ == encode_encrypted_message(self@),
    {
        let mut out: Vec<u8> = Vec::new();
        match self {
            EncryptedMessage::KeyStored { nonce, message } => {
                out.push(0u8);
                append(&mut out, nonce.as_slice());
                append(&mut out, message.as_slice());
            },
            EncryptedMessage::KeyEncapsulated { nonce, ciphertext, message } => {
                out.push(1u8);
                append(&mut out, nonce.as_slice());
                append(&mut out, ciphertext.as_slice());
                append(&mut out, message.as_slice());
            },
        }
        assert(out@ =~= encode_encrypted_message(self@));
        out
    }

    /// Decodes a message. Fails with `MalformedEncoding` on an unknown tag,
    /// and where the bytes are too few for what the tag announces.
    pub fn from_bytes(bytes: &[u8]) -> (out: Result<EncryptedMessage, Error>)
        ensures
            decodes_as(out, decode_encrypted_message(bytes@)),
    {
        let len = bytes.len();
        if len == 0 {
            return Err(Error::MalformedEncoding);
        }
        let tag = bytes[0];
        if tag == 0 {
            if len < 13 {
                return Err(Error::MalformedEncoding);
            }
            let nonce: [u8; 12] = take_array(bytes, 1);
            let message = copy_range(bytes, 13, len);
            Ok(EncryptedMessage::KeyStored { nonce, message })
        } else if tag == 1 {
            if len < 1581 {
                return Err(Error::MalformedEncoding);
            }
            let nonce: [u8; 12] = take_array(bytes, 1);
            let ciphertext: [u8; 1568] = take_array(bytes, 13);
            let message = copy_range(bytes, 1581, len);
            Ok(EncryptedMessage::KeyEncapsulated { nonce, ciphertext, message })
        } else {
            Err(Error::MalformedEncoding)
        }
    }
}

/// A public key decodes from its encoding to itself.
pub proof fn lemma_public_key_roundtrip(key: PublicKeyView)
    requires
        key.wf(),
    ensures
        decode_public_key(encode_public_key(key)) == Ok::<PublicKeyView, Error>(key),
{
    let bytes = encode_public_key(key);
    match key {
        PublicKeyView::Ciphertext(value) => {
            assert(bytes.subrange(1, 1569) =~= value);
        },
        PublicKeyView::EncapsulationKey(value) => {
            assert(bytes.subrange(1, 1569) =~= value);
        },
    }
}

/// An encrypted seed decodes from its encoding to itself.
pub proof fn lemma_encrypted_seed_roundtrip(seed: EncryptedSeedView)
    requires
        seed.wf(),
    ensures
        decode_encrypted_seed(encode_encrypted_seed(seed)) == Ok::<EncryptedSeedView, Error>(seed),
{
    let bytes = encode_encrypted_seed(seed);
    assert(bytes.subrange(0, 12) =~= seed.nonce);
    assert(bytes.subrange(12, 28) =~= seed.salt);
    assert(bytes.subrange(28, bytes.len() as int) =~= seed.seed);
}

/// An encrypted message decodes from its encoding to itself.
pub proof fn lemma_encrypted_message_roundtrip(message: EncryptedMessageView)
    requires
        message.wf(),
    ensures
        decode_encrypted_message(encode_encrypted_message(message)) == Ok::<
            EncryptedMessageView,
            Error,
        >(message),
{
    let bytes = encode_encrypted_message(message);
    match message {
        EncryptedMessageView::KeyStored { nonce, message: sealed } => {
            assert(bytes.subrange(1, 13) =~= nonce);
            assert(bytes.subrange(13, bytes.len() as int) =~= sealed);
        },
        EncryptedMessageView::KeyEncapsulated { nonce, ciphertext, message: sealed } => {
            assert(bytes.subrange(1, 13) =~= nonce);
            assert(bytes.subrange(13, 1581) =~= ciphertext);
            assert(bytes.subrange(1581, bytes.len() as int) =~= sealed);
        },
    }
}

} // verus!
