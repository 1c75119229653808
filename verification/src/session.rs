//! The session state machine: the handshake that establishes the first
//! shared secret, and the re-key rounds that replace it.
//!
//! The initiator of a handshake opens a session with an outgoing offer and
//! completes it with the peer's acceptance; the responder accepts in one
//! step. In an established session either side may offer a re-key on a
//! message; the other side notes the offer when it receives the message,
//! answers it on its next message, and from then on uses the new secret; the
//! offering side adopts the new secret when the answer arrives. Until then
//! both seal under the old secret, the answer included, so a message that
//! the answering side seals after its answer opens for the offering side
//! only once the answer has arrived.
//!
//! At most one exchange is pending. A step that would start a second one is
//! refused with `UnexpectedMessage`, like a message that answers an offer
//! that was never made. Every step that fails leaves the session as it was.
//!
//! Until its handshake is complete a session has no secret: the place of the
//! current secret then holds zero bytes of the same length, which keeps the
//! binary layout of the session uniform.

use crate::aes::MAX_PLAINTEXT_LEN;
use crate::argon2::MAX_PASSWORD_LEN;
use crate::bytes::{zeroize, zeroize_array};
use crate::error::Error;
use crate::kem::{encapsulates, encapsulation_key_valid, generate_keys, kem_decapsulate,
    kem_encapsulation_key};
use crate::sealed::{open, opened, seal, seal_with_password, unlock, unlocked};
use crate::types::{
    Ciphertext, DecapsulationKey, EncapsulationKey, FriendAccept, FriendRequest, KeyUpdateBundle,
    KeyUpdateBundleView, PasswordProtectedData, PasswordProtectedDataView, PendingKeyExchange,
    PendingKeyExchangeView, RatchetPayload, RatchetPayloadView, Secret, StoredSession,
    StoredSessionView,
};
use vstd::prelude::*;
use vstd::string::StringSliceAdditionalSpecFns;

verus! {

/// The current secret of a session whose handshake is not complete: zero
/// bytes in the place of salt, nonce and sealed secret.
pub open spec fn blank_secret() -> PasswordProtectedDataView {
    PasswordProtectedDataView {
        salt: Seq::new(16, |i: int| 0u8),
        nonce: Seq::new(12, |i: int| 0u8),
        ciphertext: Seq::new(48, |i: int| 0u8),
    }
}

/// The secret under which the session seals and opens content: what the
/// current secret opens to with the password.
pub open spec fn current_key(session: StoredSessionView, password: Seq<u8>) -> Result<
    Seq<u8>,
    Error,
> {
    unlocked(session.current_secret, password, 32)
}

/// The seed of the decapsulation key that the session offered. Where no
/// outgoing offer is pending there is none, and whatever answers one is
/// unexpected.
pub open spec fn offered_seed(session: StoredSessionView, password: Seq<u8>) -> Result<
    Seq<u8>,
    Error,
> {
    match session.pending_exchange {
        Some(PendingKeyExchangeView::OutgoingOffer { decapsulation_key }) => unlocked(
            decapsulation_key,
            password,
            64,
        ),
        _ => Err(Error::UnexpectedMessage),
    }
}

/// The secret that the session adopts when `ciphertext` answers its offer.
pub open spec fn answered_secret(
    session: StoredSessionView,
    ciphertext: Seq<u8>,
    password: Seq<u8>,
) -> Result<Seq<u8>, Error> {
    match offered_seed(session, password) {
        Err(e) => Err(e),
        Ok(seed) => Ok(kem_decapsulate(seed, ciphertext)),
    }
}

/// The state of an initiator that sent `request`: no secret yet, and a
/// pending outgoing offer whose sealed seed is that of the key in the
/// request.
pub open spec fn initiated(session: StoredSessionView, request: Seq<u8>, password: Seq<u8>) -> bool {
    &&& session.wf()
    &&& session.current_secret == blank_secret()
    &&& encapsulation_key_valid(request)
    &&& offered_seed(session, password) matches Ok(seed) && kem_encapsulation_key(seed) == request
}

/// The state of a responder that answered `request` with `accept`: nothing
/// pending, and a current secret that the key in the request encapsulates in
/// the ciphertext of the acceptance.
pub open spec fn accepted(
    request: Seq<u8>,
    session: StoredSessionView,
    accept: Seq<u8>,
    password: Seq<u8>,
) -> bool {
    &&& session.wf()
    &&& session.pending_exchange is None
    &&& current_key(session, password) matches Ok(secret) && encapsulates(request, accept, secret)
}

/// The state `after` of a session that held an outgoing offer in `before`
/// and took `ciphertext` as its answer: nothing pending, and the secret that
/// the offered key decapsulates from the ciphertext as the current one.
pub open spec fn adopted(
    before: StoredSessionView,
    ciphertext: Seq<u8>,
    password: Seq<u8>,
    after: StoredSessionView,
) -> bool {
    &&& after.wf()
    &&& after.pending_exchange is None
    &&& answered_secret(before, ciphertext, password) matches Ok(secret) && current_key(
        after,
        password,
    ) == Ok::<Seq<u8>, Error>(secret)
}

/// The key under which a message that offers a re-key is sealed. A session
/// with an exchange pending offers none.
pub open spec fn offering_key(session: StoredSessionView, password: Seq<u8>) -> Result<
    Seq<u8>,
    Error,
> {
    if session.pending_exchange is Some {
        Err(Error::UnexpectedMessage)
    } else {
        current_key(session, password)
    }
}

/// The key of the pending incoming offer. Where none is pending there is
/// nothing to answer.
pub open spec fn incoming_offer(session: StoredSessionView) -> Result<Seq<u8>, Error> {
    match session.pending_exchange {
        Some(PendingKeyExchangeView::IncomingOffer { encapsulation_key }) => {
            if encapsulation_key_valid(encapsulation_key) {
                Ok(encapsulation_key)
            } else {
                Err(Error::InvalidKey)
            }
        },
        _ => Err(Error::NoPendingExchange),
    }
}

/// The key under which the message that answers the pending incoming offer
/// is sealed: the secret that is current before the answer.
pub open spec fn answering_key(session: StoredSessionView, password: Seq<u8>) -> Result<
    Seq<u8>,
    Error,
> {
    match incoming_offer(session) {
        Err(e) => Err(e),
        Ok(_) => current_key(session, password),
    }
}

/// Whether a key update that arrives fits the pending exchange. An offer
/// needs that nothing is pending and a key that passes the validity check; a
/// response needs a pending outgoing offer.
pub open spec fn fits(session: StoredSessionView, update: KeyUpdateBundleView) -> Result<(), Error> {
    match update {
        KeyUpdateBundleView::NoUpdate => Ok(()),
        KeyUpdateBundleView::Offer(key) => {
            if session.pending_exchange is Some {
                Err(Error::UnexpectedMessage)
            } else if !encapsulation_key_valid(key) {
                Err(Error::InvalidKey)
            } else {
                Ok(())
            }
        },
        KeyUpdateBundleView::Response(_) => {
            if session.pending_exchange matches Some(
                PendingKeyExchangeView::OutgoingOffer { .. },
            ) {
                Ok(())
            } else {
                Err(Error::UnexpectedMessage)
            }
        },
    }
}

/// What [`StoredSession::receive`] returns: the plaintext of the content
/// under the current secret, once the key update fits the pending exchange
/// and, for a response, the sealed seed of the offer opens.
pub open spec fn received(
    session: StoredSessionView,
    payload: RatchetPayloadView,
    password: Seq<u8>,
) -> Result<Seq<u8>, Error> {
    match fits(session, payload.key_update) {
        Err(e) => Err(e),
        Ok(_) => match current_key(session, password) {
            Err(e) => Err(e),
            Ok(key) => match opened(payload.content, key) {
                Err(e) => Err(e),
                Ok(plaintext) => if payload.key_update is Response {
                    match offered_seed(session, password) {
                        Err(e) => Err(e),
                        Ok(_) => Ok(plaintext),
                    }
                } else {
                    Ok(plaintext)
                },
            },
        },
    }
}

/// The state `after` of a session that offered a re-key on `payload`: the
/// current secret is kept, and the seed of the offered key is pending.
pub open spec fn offered(
    before: StoredSessionView,
    password: Seq<u8>,
    after: StoredSessionView,
    payload: RatchetPayloadView,
) -> bool {
    &&& after.current_secret == before.current_secret
    &&& payload.key_update matches KeyUpdateBundleView::Offer(key) && encapsulation_key_valid(key)
        && (offered_seed(after, password) matches Ok(seed) && kem_encapsulation_key(seed) == key)
}

/// The state `after` of a session that received the offer of `key`: the
/// current secret is kept, and the offer is pending.
pub open spec fn noted(before: StoredSessionView, key: Seq<u8>, after: StoredSessionView) -> bool {
    &&& after.current_secret == before.current_secret
    &&& after.pending_exchange == Some(
        PendingKeyExchangeView::IncomingOffer { encapsulation_key: key },
    )
}

/// The state `after` of a session that answered its pending incoming offer
/// on `payload`: nothing pending, and a current secret that the offered key
/// encapsulates in the ciphertext of the response.
pub open spec fn answered(
    before: StoredSessionView,
    password: Seq<u8>,
    after: StoredSessionView,
    payload: RatchetPayloadView,
) -> bool {
    &&& after.wf()
    &&& after.pending_exchange is None
    &&& incoming_offer(before) matches Ok(key) && (payload.key_update matches KeyUpdateBundleView::Response(
        ciphertext,
    ) && (current_key(after, password) matches Ok(secret) && encapsulates(key, ciphertext, secret)))
}

/// The blank current secret.
fn blank() -> (out: PasswordProtectedData)
    ensures
        out@ == blank_secret(),
{
    let mut ciphertext: Vec<u8> = Vec::new();
    let mut i: usize = 0;
    while i < 48
        invariant
            i <= 48,
            ciphertext@.len() == i,
            forall|j: int| 0 <= j < i ==> ciphertext@[j] == 0u8,
        decreases 48 - i,
    {
        ciphertext.push(0u8);
        i += 1;
    }
    let out = PasswordProtectedData { salt: [0u8; 16], nonce: [0u8; 12], ciphertext };
    assert(out@.salt =~= blank_secret().salt);
    assert(out@.nonce =~= blank_secret().nonce);
    assert(out@.ciphertext =~= blank_secret().ciphertext);
    out
}

impl StoredSession {
    /// Starts a handshake. Generates a fresh key pair, keeps the seed of the
    /// decapsulation key sealed under the password as the pending outgoing
    /// offer, and returns the session with the request to send.
    pub fn initiate(password: &str) -> (out: (StoredSession, FriendRequest))
        requires
            password.spec_bytes().len() <= MAX_PASSWORD_LEN,
        ensures
            initiated(out.0@, out.1@, password.spec_bytes()),
    {
        let (mut decapsulation_key, encapsulation_key) = generate_keys();
        let sealed = seal_with_password(decapsulation_key.0.as_slice(), password, None);
        zeroize_array(&mut decapsulation_key.0);
        let session = StoredSession {
            current_secret: blank(),
            pending_exchange: Some(PendingKeyExchange::OutgoingOffer { decapsulation_key: sealed }),
        };
        (session, FriendRequest { encapsulation_key })
    }

    /// Answers a friend request. Encapsulates a fresh secret to the key in
    /// the request, keeps it sealed under the password as the current secret,
    /// and returns the session, with nothing pending, and the acceptance to
    /// send. Fails with `InvalidKey` exactly when the key does not pass the
    /// KEM's validity check.
    pub fn accept(request: &FriendRequest, password: &str) -> (out: Result<
        (StoredSession, FriendAccept),
        Error,
    >)
        requires
            password.spec_bytes().len() <= MAX_PASSWORD_LEN,
        ensures
            out is Ok <==> encapsulation_key_valid(request@),
            out matches Err(e) ==> e == Error::InvalidKey,
            out matches Ok(pair) ==> accepted(request@, pair.0@, pair.1@, password.spec_bytes()),
    {
        let (kem_ciphertext, mut secret) = match request.encapsulation_key.encapsulate() {
            Ok(pair) => pair,
            Err(e) => {
                return Err(e);
            },
        };
        let current_secret = seal_with_password(secret.as_slice(), password, None);
        zeroize_array(&mut secret);
        let session = StoredSession { current_secret, pending_exchange: None };
        Ok((session, FriendAccept { kem_ciphertext }))
    }

    /// Takes `ciphertext` as the answer to the pending outgoing offer:
    /// decapsulates the new secret with the offered key, seals it as the
    /// current secret and clears the pending exchange.
    fn adopt(&mut self, ciphertext: &Ciphertext, password: &str) -> (out: Result<(), Error>)
        requires
            password.spec_bytes().len() <= MAX_PASSWORD_LEN,
        ensures
            match out {
                Ok(()) => adopted(old(self)@, ciphertext@, password.spec_bytes(), final(self)@),
                Err(e) => answered_secret(old(self)@, ciphertext@, password.spec_bytes()) == Err::<
                    Seq<u8>,
                    Error,
                >(e) && *final(self) == *old(self),
            },
    {
        let mut seed: [u8; 64] = match &self.pending_exchange {
            Some(PendingKeyExchange::OutgoingOffer { decapsulation_key }) => {
                match unlock::<64>(decapsulation_key, password) {
                    Ok(seed) => seed,
                    Err(e) => {
                        return Err(e);
                    },
                }
            },
            _ => {
                return Err(Error::UnexpectedMessage);
            },
        };
        let mut key = DecapsulationKey(seed);
        let mut secret = key.decapsulate(*ciphertext);
        zeroize_array(&mut seed);
        zeroize_array(&mut key.0);
        self.current_secret = seal_with_password(secret.as_slice(), password, None);
        self.pending_exchange = None;
        zeroize_array(&mut secret);
        Ok(())
    }

    /// Completes the handshake that [`StoredSession::initiate`] started.
    /// Fails with `UnexpectedMessage` where no outgoing offer is pending,
    /// with `AuthenticationFailure` where the password does not open the
    /// sealed seed, and with `MalformedEncoding` where what it opens to is no
    /// seed; the session is then unchanged. Else the session holds the secret
    /// that the responder encapsulated, and nothing is pending.
    pub fn complete_handshake(&mut self, accept: &FriendAccept, password: &str) -> (out: Result<
        (),
        Error,
    >)
        requires
            password.spec_bytes().len() <= MAX_PASSWORD_LEN,
        ensures
            match out {
                Ok(()) => adopted(old(self)@, accept@, password.spec_bytes(), final(self)@),
                Err(e) => answered_secret(old(self)@, accept@, password.spec_bytes()) == Err::<
                    Seq<u8>,
                    Error,
                >(e) && *final(self) == *old(self),
            },
    {
        self.adopt(&accept.kem_ciphertext, password)
    }

    /// The secret under which the session seals and opens content. Fails
    /// with `AuthenticationFailure` where the password does not open the
    /// current secret, and with `MalformedEncoding` where what it opens to
    /// has not the 32 bytes of a secret.
    pub fn open_secret(&self, password: &str) -> (out: Result<Secret, Error>)
        requires
            password.spec_bytes().len() <= MAX_PASSWORD_LEN,
        ensures
            match out {
                Ok(secret) => current_key(self@, password.spec_bytes()) == Ok::<Seq<u8>, Error>(
                    secret@,
                ),
                Err(e) => current_key(self@, password.spec_bytes()) == Err::<Seq<u8>, Error>(e),
            },
    {
        unlock::<32>(&self.current_secret, password)
    }

    /// Seals `plaintext` under the current secret, in the steady state: the
    /// payload carries no key update. Fails as [`StoredSession::open_secret`]
    /// does.
    pub fn seal_message(&self, plaintext: &[u8], password: &str) -> (out: Result<
        RatchetPayload,
        Error,
    >)
        requires
            plaintext@.len() <= MAX_PLAINTEXT_LEN,
            password.spec_bytes().len() <= MAX_PASSWORD_LEN,
        ensures
            match out {
                Ok(payload) => payload@.key_update is NoUpdate && (current_key(
                    self@,
                    password.spec_bytes(),
                ) matches Ok(key) && opened(payload@.content, key) == Ok::<Seq<u8>, Error>(
                    plaintext@,
                )),
                Err(e) => current_key(self@, password.spec_bytes()) == Err::<Seq<u8>, Error>(e),
            },
    {
        let mut key = match unlock::<32>(&self.current_secret, password) {
            Ok(key) => key,
            Err(e) => {
                return Err(e);
            },
        };
        let content = seal(plaintext, &key);
        zeroize_array(&mut key);
        Ok(RatchetPayload { content, key_update: KeyUpdateBundle::NoUpdate })
    }

    /// Offers a re-key on a message. Generates a fresh key pair, keeps the
    /// seed of its decapsulation key sealed as the pending outgoing offer,
    /// and returns the payload: `plaintext` sealed under the current secret,
    /// which stays in use, and the offer of the new encapsulation key. Fails
    /// with `UnexpectedMessage` where an exchange is pending already, else as
    /// [`StoredSession::open_secret`] does; the session is then unchanged.
    pub fn offer_rekey(&mut self, plaintext: &[u8], password: &str) -> (out: Result<
        RatchetPayload,
        Error,
    >)
        requires
            plaintext@.len() <= MAX_PLAINTEXT_LEN,
            password.spec_bytes().len() <= MAX_PASSWORD_LEN,
        ensures
            match out {
                Ok(payload) => offered(old(self)@, password.spec_bytes(), final(self)@, payload@)
                    && (offering_key(old(self)@, password.spec_bytes()) matches Ok(key) && opened(
                    payload@.content,
                    key,
                ) == Ok::<Seq<u8>, Error>(plaintext@)) && (old(self)@.wf() ==> final(self)@.wf()),
                Err(e) => offering_key(old(self)@, password.spec_bytes()) == Err::<Seq<u8>, Error>(
                    e,
                ) && *final(self) == *old(self),
            },
    {
        if self.pending_exchange.is_some() {
            return Err(Error::UnexpectedMessage);
        }
        let mut key = match unlock::<32>(&self.current_secret, password) {
            Ok(key) => key,
            Err(e) => {
                return Err(e);
            },
        };
        let content = seal(plaintext, &key);
        zeroize_array(&mut key);
        let (mut decapsulation_key, encapsulation_key) = generate_keys();
        let sealed = seal_with_password(decapsulation_key.0.as_slice(), password, None);
        zeroize_array(&mut decapsulation_key.0);
        self.pending_exchange = Some(
            PendingKeyExchange::OutgoingOffer { decapsulation_key: sealed },
        );
        Ok(RatchetPayload { content, key_update: KeyUpdateBundle::Offer(encapsulation_key) })
    }

    /// Answers the pending incoming offer on a message. Encapsulates a fresh
    /// secret to the offered key and returns the payload: `plaintext` sealed
    /// under the secret that was current until now, so that the offering side
    /// can read it, and the response with the ciphertext. The new secret is
    /// the current one from here on, and nothing is pending. Fails with
    /// `NoPendingExchange` where no incoming offer is pending, with
    /// `InvalidKey` where the offered key does not pass the validity check,
    /// else as [`StoredSession::open_secret`] does; the session is then
    /// unchanged.
    pub fn answer_rekey(&mut self, plaintext: &[u8], password: &str) -> (out: Result<
        RatchetPayload,
        Error,
    >)
        requires
            plaintext@.len() <= MAX_PLAINTEXT_LEN,
            password.spec_bytes().len() <= MAX_PASSWORD_LEN,
        ensures
            match out {
                Ok(payload) => answered(old(self)@, password.spec_bytes(), final(self)@, payload@)
                    && (answering_key(old(self)@, password.spec_bytes()) matches Ok(key) && opened(
                    payload@.content,
                    key,
                ) == Ok::<Seq<u8>, Error>(plaintext@)),
                Err(e) => answering_key(old(self)@, password.spec_bytes()) == Err::<Seq<u8>, Error>(
                    e,
                ) && *final(self) == *old(self),
            },
    {
        let offer = match &self.pending_exchange {
            Some(PendingKeyExchange::IncomingOffer { encapsulation_key }) => EncapsulationKey(
                encapsulation_key.0,
            ),
            _ => {
                return Err(Error::NoPendingExchange);
            },
        };
        if !offer.is_valid() {
            return Err(Error::InvalidKey);
        }
        let mut key = match unlock::<32>(&self.current_secret, password) {
            Ok(key) => key,
            Err(e) => {
                return Err(e);
            },
        };
        let content = seal(plaintext, &key);
        zeroize_array(&mut key);
        let (ciphertext, mut secret) = match offer.encapsulate() {
            Ok(pair) => pair,
            Err(e) => {
                return Err(e);
            },
        };
        self.current_secret = seal_with_password(secret.as_slice(), password, None);
        self.pending_exchange = None;
        zeroize_array(&mut secret);
        Ok(RatchetPayload { content, key_update: KeyUpdateBundle::Response(ciphertext) })
    }

    /// Takes in a message. Opens the content under the current secret and
    /// returns the plaintext; an offer on the message becomes the pending
    /// incoming offer, and a response completes the pending outgoing offer as
    /// [`StoredSession::complete_handshake`] does. Fails with
    /// `UnexpectedMessage` where a response meets no outgoing offer or an
    /// offer meets a pending exchange, with `InvalidKey` on an offer whose
    /// key does not pass the validity check, with `AuthenticationFailure`
    /// where the current secret, the content or the sealed seed does not
    /// open, and with `MalformedEncoding` where secret or seed open to a
    /// wrong length; the session is then unchanged.
    pub fn receive(&mut self, payload: &RatchetPayload, password: &str) -> (out: Result<
        Vec<u8>,
        Error,
    >)
        requires
            password.spec_bytes().len() <= MAX_PASSWORD_LEN,
        ensures
            match out {
                Ok(plaintext) => received(old(self)@, payload@, password.spec_bytes()) == Ok::<
                    Seq<u8>,
                    Error,
                >(plaintext@) && match payload@.key_update {
                    KeyUpdateBundleView::NoUpdate => *final(self) == *old(self),
                    KeyUpdateBundleView::Offer(key) => noted(old(self)@, key, final(self)@),
                    KeyUpdateBundleView::Response(ciphertext) => adopted(
                        old(self)@,
                        ciphertext,
                        password.spec_bytes(),
                        final(self)@,
                    ),
                },
                Err(e) => received(old(self)@, payload@, password.spec_bytes()) == Err::<
                    Seq<u8>,
                    Error,
                >(e) && *final(self) == *old(self),
            },
            old(self)@.wf() ==> final(self)@.wf(),
    {
        match &payload.key_update {
            KeyUpdateBundle::NoUpdate => {},
            KeyUpdateBundle::Offer(key) => {
                if self.pending_exchange.is_some() {
                    return Err(Error::UnexpectedMessage);
                }
                if !key.is_valid() {
                    return Err(Error::InvalidKey);
                }
            },
            KeyUpdateBundle::Response(_) => {
                match &self.pending_exchange {
                    Some(PendingKeyExchange::OutgoingOffer { .. }) => {},
                    _ => {
                        return Err(Error::UnexpectedMessage);
                    },
                }
            },
        }
        let mut key = match unlock::<32>(&self.current_secret, password) {
            Ok(key) => key,
            Err(e) => {
                return Err(e);
            },
        };
        let content = open(&payload.content, &key);
        zeroize_array(&mut key);
        let mut plaintext = match content {
            Ok(plaintext) => plaintext,
            Err(e) => {
                return Err(e);
            },
        };
        match &payload.key_update {
            KeyUpdateBundle::NoUpdate => {},
            KeyUpdateBundle::Offer(key) => {
                self.pending_exchange = Some(
                    PendingKeyExchange::IncomingOffer { encapsulation_key: EncapsulationKey(key.0) },
                );
            },
            KeyUpdateBundle::Response(ciphertext) => {
                match self.adopt(ciphertext, password) {
                    Ok(()) => {},
                    Err(e) => {
                        zeroize(&mut plaintext);
                        return Err(e);
                    },
                }
            },
        }
        Ok(plaintext)
    }
}

} // verus!
