//! The binary layouts. Each structure has an `encode_*` and a `decode_*`
//! specification over its view, a `to_bytes` that computes the first, a
//! `from_bytes` that computes the second, and a law that decoding undoes
//! encoding.
//!
//! No layout carries a length. A field of variable length runs to the end of
//! the bytes it is decoded from, so a structure that continues after such a
//! field is taken apart from the fixed sizes around it.

use crate::bytes::{append, copy_range, take_array};
use crate::error::Error;
use crate::kem::{encapsulation_key_valid, kem_key_check};
use crate::types::{
    Ciphertext, DecapsulationKey, EncapsulationKey, EncryptedPayload, EncryptedPayloadView,
    FriendAccept, FriendRequest, KeyUpdateBundle, KeyUpdateBundleView, PasswordProtectedData,
    PasswordProtectedDataView, PendingKeyExchange, PendingKeyExchangeView, RatchetPayload,
    RatchetPayloadView, Secret, StoredSession, StoredSessionView,
};
use vstd::prelude::*;
use vstd::slice::slice_subrange;

verus! {

/// Whether `out` is the specified decoding `expected`, value for view and
/// error for error.
pub open spec fn decodes_as<T: View>(out: Result<T, Error>, expected: Result<T::V, Error>) -> bool {
    match out {
        Ok(value) => expected == Ok::<T::V, Error>(value@),
        Err(e) => expected == Err::<T::V, Error>(e),
    }
}

// ----- fixed-size values -----

/// Decoding of a value that is exactly `len` raw bytes.
pub open spec fn decode_fixed(bytes: Seq<u8>, len: nat) -> Result<Seq<u8>, Error> {
    if bytes.len() == len {
        Ok(bytes)
    } else {
        Err(Error::MalformedEncoding)
    }
}

/// Decoding of an encapsulation key: 1568 raw bytes that pass the KEM's
/// validity check.
pub open spec fn decode_encapsulation_key(bytes: Seq<u8>) -> Result<Seq<u8>, Error> {
    if bytes.len() != 1568 {
        Err(Error::MalformedEncoding)
    } else if !encapsulation_key_valid(bytes) {
        Err(Error::InvalidKey)
    } else {
        Ok(bytes)
    }
}

/// A copy of the bytes of a fixed-size value.
pub fn encode_array<const N: usize>(value: &[u8; N]) -> (out: Vec<u8>)
    ensures
        out@ == value@,
{
    let mut out: Vec<u8> = Vec::new();
    append(&mut out, value.as_slice());
    assert(out@ =~= value@);
    out
}

/// Decodes a value of exactly `N` raw bytes.
pub fn decode_array<const N: usize>(bytes: &[u8]) -> (out: Result<[u8; N], Error>)
    ensures
        decodes_as(out, decode_fixed(bytes@, N as nat)),
{
    if bytes.len() != N {
        return Err(Error::MalformedEncoding);
    }
    let value: [u8; N] = take_array(bytes, 0);
    assert(value@ =~= bytes@);
    Ok(value)
}

/// Encodes a KEM ciphertext: its 1568 raw bytes.
pub fn encode_ciphertext(ciphertext: &Ciphertext) -> (out: Vec<u8>)
    ensures
        out@ == ciphertext@,
{
    encode_array(ciphertext)
}

/// Decodes a KEM ciphertext. Fails with `MalformedEncoding` unless the bytes
/// are exactly 1568.
pub fn decode_ciphertext(bytes: &[u8]) -> (out: Result<Ciphertext, Error>)
    ensures
        decodes_as(out, decode_fixed(bytes@, 1568)),
{
    decode_array(bytes)
}

/// Encodes a shared secret: its 32 raw bytes.
pub fn encode_secret(secret: &Secret) -> (out: Vec<u8>)
    ensures
        out@ == secret@,
{
    encode_array(secret)
}

/// Decodes a shared secret. Fails with `MalformedEncoding` unless the bytes
/// are exactly 32.
pub fn decode_secret(bytes: &[u8]) -> (out: Result<Secret, Error>)
    ensures
        decodes_as(out, decode_fixed(bytes@, 32)),
{
    decode_array(bytes)
}

impl EncapsulationKey {
    /// The 1568 raw bytes of the key.
    pub fn to_bytes(&self) -> (out: Vec<u8>)
        ensures
            out@ == self@,
    {
        encode_array(&self.0)
    }

    /// Decodes a key. Fails with `MalformedEncoding` unless the bytes are
    /// exactly 1568, and with `InvalidKey` where they are and do not pass the
    /// KEM's validity check.
    pub fn from_bytes(bytes: &[u8]) -> (out: Result<EncapsulationKey, Error>)
        ensures
            decodes_as(out, decode_encapsulation_key(bytes@)),
    {
        if bytes.len() != 1568 {
            return Err(Error::MalformedEncoding);
        }
        let key: [u8; 1568] = take_array(bytes, 0);
        assert(key@ =~= bytes@);
        if !kem_key_check(&key) {
            return Err(Error::InvalidKey);
        }
        Ok(EncapsulationKey(key))
    }
}

impl DecapsulationKey {
    /// The persisted form of the key: the 64 raw bytes of its seed.
    pub fn to_bytes(&self) -> (out: Vec<u8>)
        ensures
            out@ == self@,
    {
        encode_array(&self.0)
    }

    /// Decodes a key from its seed. Fails with `MalformedEncoding` unless the
    /// bytes are exactly 64.
    pub fn from_bytes(bytes: &[u8]) -> (out: Result<DecapsulationKey, Error>)
        ensures
            decodes_as(out, decode_fixed(bytes@, 64)),
    {
        match decode_array::<64>(bytes) {
            Ok(seed) => Ok(DecapsulationKey(seed)),
            Err(e) => Err(e),
        }
    }
}

// ----- handshake messages -----

impl FriendRequest {
    /// The encoding of the request: its encapsulation key, without a tag.
    pub fn to_bytes(&self) -> (out: Vec<u8>)
        ensures
            out@ == self@,
    {
        self.encapsulation_key.to_bytes()
    }

    /// Decodes a request, as [`EncapsulationKey::from_bytes`] decodes its key.
    pub fn from_bytes(bytes: &[u8]) -> (out: Result<FriendRequest, Error>)
        ensures
            decodes_as(out, decode_encapsulation_key(bytes@)),
    {
        match EncapsulationKey::from_bytes(bytes) {
            Ok(encapsulation_key) => Ok(FriendRequest { encapsulation_key }),
            Err(e) => Err(e),
        }
    }
}

impl FriendAccept {
    /// The encoding of the acceptance: its KEM ciphertext, without a tag.
    pub fn to_bytes(&self) -> (out: Vec<u8>)
        ensures
            out@ == self@,
    {
        encode_array(&self.kem_ciphertext)
    }

    /// Decodes an acceptance. Fails with `MalformedEncoding` unless the bytes
    /// are exactly 1568.
    pub fn from_bytes(bytes: &[u8]) -> (out: Result<FriendAccept, Error>)
        ensures
            decodes_as(out, decode_fixed(bytes@, 1568)),
    {
        match decode_array::<1568>(bytes) {
            Ok(kem_ciphertext) => Ok(FriendAccept { kem_ciphertext }),
            Err(e) => Err(e),
        }
    }
}

// ----- sealed blobs -----

/// Layout of an encrypted payload: the nonce, then the ciphertext with its tag.
pub open spec fn encode_payload(payload: EncryptedPayloadView) -> Seq<u8> {
    payload.nonce + payload.ciphertext
}

/// Decoding of an encrypted payload: the first 12 bytes are the nonce, all
/// that follows is the ciphertext.
pub open spec fn decode_payload(bytes: Seq<u8>) -> Result<EncryptedPayloadView, Error> {
    if bytes.len() < 12 {
        Err(Error::MalformedEncoding)
    } else {
        Ok(
            EncryptedPayloadView {
                nonce: bytes.subrange(0, 12),
                ciphertext: bytes.subrange(12, bytes.len() as int),
            },
        )
    }
}

/// Layout of password-protected data: salt, nonce, then the ciphertext.
pub open spec fn encode_protected(data: PasswordProtectedDataView) -> Seq<u8> {
    data.salt + data.nonce + data.ciphertext
}

/// Decoding of password-protected data: 16 bytes of salt, 12 of nonce, and
/// all that follows is the ciphertext.
pub open spec fn decode_protected(bytes: Seq<u8>) -> Result<PasswordProtectedDataView, Error> {
    if bytes.len() < 28 {
        Err(Error::MalformedEncoding)
    } else {
        Ok(
            PasswordProtectedDataView {
                salt: bytes.subrange(0, 16),
                nonce: bytes.subrange(16, 28),
                ciphertext: bytes.subrange(28, bytes.len() as int),
            },
        )
    }
}

impl EncryptedPayload {
    /// The encoding of the payload.
    pub fn to_bytes(&self) -> (out: Vec<u8>)
        ensures
            out@ == encode_payload(self@),
    {
        let mut out: Vec<u8> = Vec::new();
        append(&mut out, self.nonce.as_slice());
        append(&mut out, self.ciphertext.as_slice());
        assert(out@ =~= encode_payload(self@));
        out
    }

    /// Decodes a payload. Fails with `MalformedEncoding` exactly when the
    /// bytes are too few to hold a nonce.
    pub fn from_bytes(bytes: &[u8]) -> (out: Result<EncryptedPayload, Error>)
        ensures
            decodes_as(out, decode_payload(bytes@)),
    {
        if bytes.len() < 12 {
            return Err(Error::MalformedEncoding);
        }
        let nonce: [u8; 12] = take_array(bytes, 0);
        let ciphertext = copy_range(bytes, 12, bytes.len());
        Ok(EncryptedPayload { nonce, ciphertext })
    }
}

impl PasswordProtectedData {
    /// The encoding of the data.
    pub fn to_bytes(&self) -> (out: Vec<u8>)
        ensures
            out@ == encode_protected(self@),
    {
        let mut out: Vec<u8> = Vec::new();
        append(&mut out, self.salt.as_slice());
        append(&mut out, self.nonce.as_slice());
        append(&mut out, self.ciphertext.as_slice());
        assert(out@ =~= encode_protected(self@));
        out
    }

    /// Decodes password-protected data. Fails with `MalformedEncoding`
    /// exactly when the bytes are too few to hold a salt and a nonce.
    pub fn from_bytes(bytes: &[u8]) -> (out: Result<PasswordProtectedData, Error>)
        ensures
            decodes_as(out, decode_protected(bytes@)),
    {
        if bytes.len() < 28 {
            return Err(Error::MalformedEncoding);
        }
        let salt: [u8; 16] = take_array(bytes, 0);
        let nonce: [u8; 12] = take_array(bytes, 16);
        let ciphertext = copy_range(bytes, 28, bytes.len());
        Ok(PasswordProtectedData { salt, nonce, ciphertext })
    }
}

// ----- the key update and the ratchet envelope -----

/// Layout of a key update: a tag byte, then the key of an offer or the
/// ciphertext of a response.
pub open spec fn encode_key_update(update: KeyUpdateBundleView) -> Seq<u8> {
    match update {
        KeyUpdateBundleView::NoUpdate => seq![0u8],
        KeyUpdateBundleView::Offer(key) => seq![1u8] + key,
        KeyUpdateBundleView::Response(ciphertext) => seq![2u8] + ciphertext,
    }
}

/// Decoding of a key update. The tag decides what must follow: nothing, an
/// encapsulation key, or 1568 bytes of ciphertext.
pub open spec fn decode_key_update(bytes: Seq<u8>) -> Result<KeyUpdateBundleView, Error> {
    if bytes.len() == 0 {
        Err(Error::MalformedEncoding)
    } else if bytes[0] == 0 {
        if bytes.len() == 1 {
            Ok(KeyUpdateBundleView::NoUpdate)
        } else {
            Err(Error::MalformedEncoding)
        }
    } else if bytes[0] == 1 {
        match decode_encapsulation_key(bytes.subrange(1, bytes.len() as int)) {
            Ok(key) => Ok(KeyUpdateBundleView::Offer(key)),
            Err(e) => Err(e),
        }
    } else if bytes[0] == 2 {
        match decode_fixed(bytes.subrange(1, bytes.len() as int), 1568) {
            Ok(ciphertext) => Ok(KeyUpdateBundleView::Response(ciphertext)),
            Err(e) => Err(e),
        }
    } else {
        Err(Error::MalformedEncoding)
    }
}

/// Layout of a ratchet payload: the content, then the key update.
pub open spec fn encode_ratchet_payload(payload: RatchetPayloadView) -> Seq<u8> {
    encode_payload(payload.content) + encode_key_update(payload.key_update)
}

/// Where the key update starts in an encoded ratchet payload. The content has
/// no length of its own, so the update is looked for at the end: an offer or
/// a response where the byte 1569 from the end is their tag, else a single
/// zero byte.
pub open spec fn key_update_start(bytes: Seq<u8>) -> Option<int> {
    let long = bytes.len() - 1569;
    if long >= 12 && (bytes[long] == 1 || bytes[long] == 2) {
        Some(long)
    } else if bytes.len() >= 13 && bytes[bytes.len() - 1] == 0 {
        Some(bytes.len() - 1)
    } else {
        None
    }
}

/// Decoding of a ratchet payload: the bytes are split where the key update
/// starts, and each part is decoded on its own.
pub open spec fn decode_ratchet_payload(bytes: Seq<u8>) -> Result<RatchetPayloadView, Error> {
    match key_update_start(bytes) {
        None => Err(Error::MalformedEncoding),
        Some(at) => match decode_key_update(bytes.subrange(at, bytes.len() as int)) {
            Err(e) => Err(e),
            Ok(key_update) => match decode_payload(bytes.subrange(0, at)) {
                Err(e) => Err(e),
                Ok(content) => Ok(RatchetPayloadView { content, key_update }),
            },
        },
    }
}

impl KeyUpdateBundle {
    /// The encoding of the key update.
    pub fn to_bytes(&self) -> (out: Vec<u8>)
        ensures
            out@ == encode_key_update(self@),
    {
        let mut out: Vec<u8> = Vec::new();
        match self {
            KeyUpdateBundle::NoUpdate => {
                out.push(0u8);
            },
            KeyUpdateBundle::Offer(key) => {
                out.push(1u8);
                append(&mut out, key.0.as_slice());
            },
            KeyUpdateBundle::Response(ciphertext) => {
                out.push(2u8);
                append(&mut out, ciphertext.as_slice());
            },
        }
        assert(out@ =~= encode_key_update(self@));
        out
    }

    /// Decodes a key update. Fails with `MalformedEncoding` on an unknown tag
    /// or a length that the tag does not allow, and with `InvalidKey` on an
    /// offer whose key does not pass the KEM's validity check.
    pub fn from_bytes(bytes: &[u8]) -> (out: Result<KeyUpdateBundle, Error>)
        ensures
            decodes_as(out, decode_key_update(bytes@)),
    {
        if bytes.len() == 0 {
            return Err(Error::MalformedEncoding);
        }
        let tag = bytes[0];
        if tag == 0 {
            if bytes.len() == 1 {
                Ok(KeyUpdateBundle::NoUpdate)
            } else {
                Err(Error::MalformedEncoding)
            }
        } else if tag == 1 {
            match EncapsulationKey::from_bytes(slice_subrange(bytes, 1, bytes.len())) {
                Ok(key) => Ok(KeyUpdateBundle::Offer(key)),
                Err(e) => Err(e),
            }
        } else if tag == 2 {
            match decode_array::<1568>(slice_subrange(bytes, 1, bytes.len())) {
                Ok(ciphertext) => Ok(KeyUpdateBundle::Response(ciphertext)),
                Err(e) => Err(e),
            }
        } else {
            Err(Error::MalformedEncoding)
        }
    }
}

impl RatchetPayload {
    /// The encoding of the payload.
    pub fn to_bytes(&self) -> (out: Vec<u8>)
        ensures
            out@ == encode_ratchet_payload(self@),
    {
        let mut out = self.content.to_bytes();
        let update = self.key_update.to_bytes();
        append(&mut out, update.as_slice());
        out
    }

    /// Decodes a ratchet payload. Fails with `MalformedEncoding` where no key
    /// update is found at the end or the content before it is too short for a
    /// nonce, and with `InvalidKey` on an offer whose key does not pass the
    /// KEM's validity check.
    pub fn from_bytes(bytes: &[u8]) -> (out: Result<RatchetPayload, Error>)
        ensures
            decodes_as(out, decode_ratchet_payload(bytes@)),
    {
        let len = bytes.len();
        let at: usize = if len >= 1581 && (bytes[len - 1569] == 1 || bytes[len - 1569] == 2) {
            len - 1569
        } else if len >= 13 && bytes[len - 1] == 0 {
            len - 1
        } else {
            return Err(Error::MalformedEncoding);
        };
        assert(key_update_start(bytes@) == Some(at as int));
        let key_update = match KeyUpdateBundle::from_bytes(slice_subrange(bytes, at, len)) {
            Ok(key_update) => key_update,
            Err(e) => {
                return Err(e);
            },
        };
        match EncryptedPayload::from_bytes(slice_subrange(bytes, 0, at)) {
            Ok(content) => Ok(RatchetPayload { content, key_update }),
            Err(e) => Err(e),
        }
    }
}

// ----- the pending exchange and the stored session -----

/// Layout of a pending exchange: a tag byte, then the sealed decapsulation
/// key of an outgoing offer or the encapsulation key of an incoming one.
pub open spec fn encode_pending(pending: PendingKeyExchangeView) -> Seq<u8> {
    match pending {
        PendingKeyExchangeView::OutgoingOffer { decapsulation_key } => seq![0u8]
            + encode_protected(decapsulation_key),
        PendingKeyExchangeView::IncomingOffer { encapsulation_key } => seq![1u8]
            + encapsulation_key,
    }
}

/// Decoding of a pending exchange.
pub open spec fn decode_pending(bytes: Seq<u8>) -> Result<PendingKeyExchangeView, Error> {
    if bytes.len() == 0 {
        Err(Error::MalformedEncoding)
    } else if bytes[0] == 0 {
        match decode_protected(bytes.subrange(1, bytes.len() as int)) {
            Ok(decapsulation_key) => Ok(
                PendingKeyExchangeView::OutgoingOffer { decapsulation_key },
            ),
            Err(e) => Err(e),
        }
    } else if bytes[0] == 1 {
        match decode_encapsulation_key(bytes.subrange(1, bytes.len() as int)) {
            Ok(encapsulation_key) => Ok(
                PendingKeyExchangeView::IncomingOffer { encapsulation_key },
            ),
            Err(e) => Err(e),
        }
    } else {
        Err(Error::MalformedEncoding)
    }
}

/// Layout of a stored session: the current secret, a presence flag, and the
/// pending exchange where the flag is 1.
pub open spec fn encode_session(session: StoredSessionView) -> Seq<u8> {
    encode_protected(session.current_secret) + match session.pending_exchange {
        None => seq![0u8],
        Some(pending) => seq![1u8] + encode_pending(pending),
    }
}

/// Decoding of a stored session. The current secret seals 32 bytes, so it
/// takes the first 76 bytes; the flag follows, and what comes after the flag
/// is the pending exchange.
pub open spec fn decode_session(bytes: Seq<u8>) -> Result<StoredSessionView, Error> {
    if bytes.len() < 77 {
        Err(Error::MalformedEncoding)
    } else {
        match decode_protected(bytes.subrange(0, 76)) {
            Err(e) => Err(e),
            Ok(current_secret) => if bytes[76] == 0 {
                if bytes.len() == 77 {
                    Ok(StoredSessionView { current_secret, pending_exchange: None })
                } else {
                    Err(Error::MalformedEncoding)
                }
            } else if bytes[76] == 1 {
                match decode_pending(bytes.subrange(77, bytes.len() as int)) {
                    Ok(pending) => Ok(
                        StoredSessionView { current_secret, pending_exchange: Some(pending) },
                    ),
                    Err(e) => Err(e),
                }
            } else {
                Err(Error::MalformedEncoding)
            },
        }
    }
}

impl PendingKeyExchange {
    /// The encoding of the pending exchange.
    pub fn to_bytes(&self) -> (out: Vec<u8>)
        ensures
            out@ == encode_pending(self@),
    {
        let mut out: Vec<u8> = Vec::new();
        match self {
            PendingKeyExchange::OutgoingOffer { decapsulation_key } => {
                out.push(0u8);
                let sealed = decapsulation_key.to_bytes();
                append(&mut out, sealed.as_slice());
            },
            PendingKeyExchange::IncomingOffer { encapsulation_key } => {
                out.push(1u8);
                append(&mut out, encapsulation_key.0.as_slice());
            },
        }
        assert(out@ =~= encode_pending(self@));
        out
    }

    /// Decodes a pending exchange. Fails with `MalformedEncoding` on an
    /// unknown tag or a length that the tag does not allow, and with
    /// `InvalidKey` on an incoming offer whose key does not pass the KEM's
    /// validity check.
    pub fn from_bytes(bytes: &[u8]) -> (out: Result<PendingKeyExchange, Error>)
        ensures
            decodes_as(out, decode_pending(bytes@)),
    {
        if bytes.len() == 0 {
            return Err(Error::MalformedEncoding);
        }
        let tag = bytes[0];
        let rest = slice_subrange(bytes, 1, bytes.len());
        if tag == 0 {
            match PasswordProtectedData::from_bytes(rest) {
                Ok(decapsulation_key) => Ok(PendingKeyExchange::OutgoingOffer { decapsulation_key }),
                Err(e) => Err(e),
            }
        } else if tag == 1 {
            match EncapsulationKey::from_bytes(rest) {
                Ok(encapsulation_key) => Ok(PendingKeyExchange::IncomingOffer { encapsulation_key }),
                Err(e) => Err(e),
            }
        } else {
            Err(Error::MalformedEncoding)
        }
    }
}

impl StoredSession {
    /// The encoding of the session.
    pub fn to_bytes(&self) -> (out: Vec<u8>)
        ensures
            out@ == encode_session(self@),
    {
        let mut out = self.current_secret.to_bytes();
        match &self.pending_exchange {
            None => {
                out.push(0u8);
            },
            Some(pending) => {
                out.push(1u8);
                let encoded = pending.to_bytes();
                append(&mut out, encoded.as_slice());
            },
        }
        assert(out@ =~= encode_session(self@));
        out
    }

    /// Decodes a session. Fails with `MalformedEncoding` where the bytes are
    /// too few for a current secret and a flag, where the flag is neither 0
    /// nor 1, where bytes follow a flag of 0, or where the pending exchange
    /// is malformed; and with `InvalidKey` on an incoming offer whose key
    /// does not pass the KEM's validity check.
    pub fn from_bytes(bytes: &[u8]) -> (out: Result<StoredSession, Error>)
        ensures
            decodes_as(out, decode_session(bytes@)),
    {
        let len = bytes.len();
        if len < 77 {
            return Err(Error::MalformedEncoding);
        }
        let current_secret = match PasswordProtectedData::from_bytes(slice_subrange(bytes, 0, 76)) {
            Ok(current_secret) => current_secret,
            Err(e) => {
                return Err(e);
            },
        };
        let flag = bytes[76];
        if flag == 0 {
            if len == 77 {
                Ok(StoredSession { current_secret, pending_exchange: None })
            } else {
                Err(Error::MalformedEncoding)
            }
        } else if flag == 1 {
            match PendingKeyExchange::from_bytes(slice_subrange(bytes, 77, len)) {
                Ok(pending) => Ok(StoredSession { current_secret, pending_exchange: Some(pending) }),
                Err(e) => Err(e),
            }
        } else {
            Err(Error::MalformedEncoding)
        }
    }
}

} // verus!
