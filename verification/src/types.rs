//! The data model: keys, sealed blobs, handshake messages, the ratchet
//! envelope and the stored session, each with its mathematical view.

use crate::kem::encapsulation_key_valid;
use vstd::prelude::*;

verus! {

/// Output of a KEM encapsulation: 1568 bytes.
pub type Ciphertext = [u8; 1568];

/// Shared symmetric secret of 32 bytes, used as an AEAD key.
pub type Secret = [u8; 32];

/// Public key of the KEM, in its encoded form of 1568 bytes.
#[derive(Clone, PartialEq, Eq, Debug)]
pub struct EncapsulationKey(pub [u8; 1568]);

/// Private key of the KEM, held as the 64-byte seed from which it is rebuilt.
#[derive(Clone, PartialEq, Eq, Debug)]
pub struct DecapsulationKey(pub [u8; 64]);

/// AEAD-sealed message body: the 12-byte nonce and the ciphertext, which
/// ends with the 16-byte tag.
#[derive(Clone, PartialEq, Eq, Debug)]
pub struct EncryptedPayload {
    pub nonce: [u8; 12],
    pub ciphertext: Vec<u8>,
}

/// AEAD-sealed blob whose key is derived from a password and the salt.
#[derive(Clone, PartialEq, Eq, Debug)]
pub struct PasswordProtectedData {
    pub salt: [u8; 16],
    pub nonce: [u8; 12],
    pub ciphertext: Vec<u8>,
}

/// Re-key negotiation that rides on a message.
#[derive(Clone, PartialEq, Eq, Debug)]
pub enum KeyUpdateBundle {
    /// The message carries no negotiation.
    NoUpdate,
    /// The sender offers a fresh encapsulation key.
    Offer(EncapsulationKey),
    /// The sender answers an offer with a KEM ciphertext.
    Response(Ciphertext),
}

/// Steady-state message: the sealed content and the re-key negotiation.
#[derive(Clone, PartialEq, Eq, Debug)]
pub struct RatchetPayload {
    pub content: EncryptedPayload,
    pub key_update: KeyUpdateBundle,
}

/// Message that starts a handshake.
#[derive(Clone, PartialEq, Eq, Debug)]
pub struct FriendRequest {
    pub encapsulation_key: EncapsulationKey,
}

/// Message that completes a handshake.
#[derive(Clone, PartialEq, Eq, Debug)]
pub struct FriendAccept {
    pub kem_ciphertext: Ciphertext,
}

/// Key exchange that is in flight.
#[derive(Clone, PartialEq, Eq, Debug)]
pub enum PendingKeyExchange {
    /// This side offered a key; the seed of its decapsulation key is kept sealed.
    OutgoingOffer { decapsulation_key: PasswordProtectedData },
    /// The peer offered a key that has not been answered yet.
    IncomingOffer { encapsulation_key: EncapsulationKey },
}

/// Per-peer record that is written to and read from storage.
#[derive(Clone, PartialEq, Eq, Debug)]
pub struct StoredSession {
    pub current_secret: PasswordProtectedData,
    pub pending_exchange: Option<PendingKeyExchange>,
}

/// What an [`EncryptedPayload`] holds.
pub struct EncryptedPayloadView {
    pub nonce: Seq<u8>,
    pub ciphertext: Seq<u8>,
}

/// What a [`PasswordProtectedData`] holds.
pub struct PasswordProtectedDataView {
    pub salt: Seq<u8>,
    pub nonce: Seq<u8>,
    pub ciphertext: Seq<u8>,
}

/// What a [`KeyUpdateBundle`] holds.
pub enum KeyUpdateBundleView {
    NoUpdate,
    Offer(Seq<u8>),
    Response(Seq<u8>),
}

/// What a [`RatchetPayload`] holds.
pub struct RatchetPayloadView {
    pub content: EncryptedPayloadView,
    pub key_update: KeyUpdateBundleView,
}

/// What a [`PendingKeyExchange`] holds.
pub enum PendingKeyExchangeView {
    OutgoingOffer { decapsulation_key: PasswordProtectedDataView },
    IncomingOffer { encapsulation_key: Seq<u8> },
}

/// What a [`StoredSession`] holds.
pub struct StoredSessionView {
    pub current_secret: PasswordProtectedDataView,
    pub pending_exchange: Option<PendingKeyExchangeView>,
}

impl View for EncapsulationKey {
    type V = Seq<u8>;

    open spec fn view(&self) -> Seq<u8> {
        self.0@
    }
}

impl View for DecapsulationKey {
    type V = Seq<u8>;

    open spec fn view(&self) -> Seq<u8> {
        self.0@
    }
}

impl View for EncryptedPayload {
    type V = EncryptedPayloadView;

    open spec fn view(&self) -> EncryptedPayloadView {
        EncryptedPayloadView { nonce: self.nonce@, ciphertext: self.ciphertext@ }
    }
}

impl View for PasswordProtectedData {
    type V = PasswordProtectedDataView;

    open spec fn view(&self) -> PasswordProtectedDataView {
        PasswordProtectedDataView {
            salt: self.salt@,
            nonce: self.nonce@,
            ciphertext: self.ciphertext@,
        }
    }
}

impl View for KeyUpdateBundle {
    type V = KeyUpdateBundleView;

    open spec fn view(&self) -> KeyUpdateBundleView {
        match self {
            KeyUpdateBundle::NoUpdate => KeyUpdateBundleView::NoUpdate,
            KeyUpdateBundle::Offer(key) => KeyUpdateBundleView::Offer(key@),
            KeyUpdateBundle::Response(ciphertext) => KeyUpdateBundleView::Response(ciphertext@),
        }
    }
}

impl View for RatchetPayload {
    type V = RatchetPayloadView;

    open spec fn view(&self) -> RatchetPayloadView {
        RatchetPayloadView { content: self.content@, key_update: self.key_update@ }
    }
}

impl View for FriendRequest {
    type V = Seq<u8>;

    open spec fn view(&self) -> Seq<u8> {
        self.encapsulation_key@
    }
}

impl View for FriendAccept {
    type V = Seq<u8>;

    open spec fn view(&self) -> Seq<u8> {
        self.kem_ciphertext@
    }
}

impl View for PendingKeyExchange {
    type V = PendingKeyExchangeView;

    open spec fn view(&self) -> PendingKeyExchangeView {
        match self {
            PendingKeyExchange::OutgoingOffer { decapsulation_key } => {
                PendingKeyExchangeView::OutgoingOffer { decapsulation_key: decapsulation_key@ }
            },
            PendingKeyExchange::IncomingOffer { encapsulation_key } => {
                PendingKeyExchangeView::IncomingOffer { encapsulation_key: encapsulation_key@ }
            },
        }
    }
}

impl View for StoredSession {
    type V = StoredSessionView;

    open spec fn view(&self) -> StoredSessionView {
        StoredSessionView {
            current_secret: self.current_secret@,
            pending_exchange: match self.pending_exchange {
                Some(pending) => Some(pending@),
                None => None,
            },
        }
    }
}

impl EncryptedPayloadView {
    /// The nonce has its 12 bytes.
    pub open spec fn wf(self) -> bool {
        self.nonce.len() == 12
    }
}

impl PasswordProtectedDataView {
    /// Salt and nonce have their 16 and 12 bytes.
    pub open spec fn wf(self) -> bool {
        &&& self.salt.len() == 16
        &&& self.nonce.len() == 12
    }
}

impl KeyUpdateBundleView {
    /// An offered key passes the KEM's validity check, and the ciphertext of
    /// a response has its 1568 bytes.
    pub open spec fn wf(self) -> bool {
        match self {
            KeyUpdateBundleView::NoUpdate => true,
            KeyUpdateBundleView::Offer(key) => encapsulation_key_valid(key),
            KeyUpdateBundleView::Response(ciphertext) => ciphertext.len() == 1568,
        }
    }
}

impl RatchetPayloadView {
    /// Content and key update are well formed.
    pub open spec fn wf(self) -> bool {
        &&& self.content.wf()
        &&& self.key_update.wf()
    }
}

impl PendingKeyExchangeView {
    /// The sealed key is well formed, or the offered key passes the KEM's
    /// validity check.
    pub open spec fn wf(self) -> bool {
        match self {
            PendingKeyExchangeView::OutgoingOffer { decapsulation_key } => decapsulation_key.wf(),
            PendingKeyExchangeView::IncomingOffer { encapsulation_key } => encapsulation_key_valid(
                encapsulation_key,
            ),
        }
    }
}

impl StoredSessionView {
    /// The current secret seals 32 bytes, which with the tag are 48, and the
    /// pending exchange, if there is one, is well formed.
    pub open spec fn wf(self) -> bool {
        &&& self.current_secret.wf()
        &&& self.current_secret.ciphertext.len() == 48
        &&& match self.pending_exchange {
            Some(pending) => pending.wf(),
            None => true,
        }
    }
}

} // verus!
