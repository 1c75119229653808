//! Laws of the session state machine: the two sides of a handshake or of a
//! re-key round end with the same secret, and an answer to an offer that was
//! never made is refused.

use crate::error::Error;
use crate::kem::kem_decapsulate;
use crate::session::{
    accepted, adopted, answered, answered_secret, current_key, initiated, noted, offered,
    offered_seed, received,
};
use crate::types::{
    EncryptedPayloadView, KeyUpdateBundleView, PendingKeyExchangeView, RatchetPayloadView,
    StoredSessionView,
};
use vstd::prelude::*;

verus! {

/// An initiated handshake can be completed: whatever ciphertext the
/// acceptance carries, the password that sealed the offer leads to a secret.
pub proof fn lemma_handshake_completes(
    initiator: StoredSessionView,
    request: Seq<u8>,
    accept: Seq<u8>,
    password: Seq<u8>,
)
    requires
        initiated(initiator, request, password),
    ensures
        answered_secret(initiator, accept, password) is Ok,
{
}

/// Handshake convergence. The initiator sends `request`; the responder
/// answers it with `accept`; the initiator completes. Then both hold the
/// same current secret, each under its own password, and neither has an
/// exchange pending.
pub proof fn lemma_handshake_converges(
    initiator: StoredSessionView,
    request: Seq<u8>,
    initiator_password: Seq<u8>,
    responder: StoredSessionView,
    accept: Seq<u8>,
    responder_password: Seq<u8>,
    completed: StoredSessionView,
)
    requires
        initiated(initiator, request, initiator_password),
        accepted(request, responder, accept, responder_password),
        adopted(initiator, accept, initiator_password, completed),
    ensures
        current_key(completed, initiator_password) is Ok,
        current_key(completed, initiator_password) == current_key(responder, responder_password),
        completed.pending_exchange is None,
        responder.pending_exchange is None,
{
    let seed = offered_seed(initiator, initiator_password)->Ok_0;
    assert(seed.len() == 64);
    assert(answered_secret(initiator, accept, initiator_password) == Ok::<Seq<u8>, Error>(
        kem_decapsulate(seed, accept),
    ));
}

/// Re-key convergence. One side offers a key on `offer`; the other notes it
/// and answers on `response`; the offering side takes the response in. Then
/// both hold the same new current secret, each under its own password, and
/// neither has an exchange pending.
pub proof fn lemma_rekey_converges(
    offering: StoredSessionView,
    offering_password: Seq<u8>,
    offer: RatchetPayloadView,
    waiting: StoredSessionView,
    answering: StoredSessionView,
    answering_password: Seq<u8>,
    holding: StoredSessionView,
    response: RatchetPayloadView,
    rotated: StoredSessionView,
    adopting: StoredSessionView,
)
    requires
        offered(offering, offering_password, waiting, offer),
        offer.key_update matches KeyUpdateBundleView::Offer(key) && noted(answering, key, holding),
        answered(holding, answering_password, rotated, response),
        response.key_update matches KeyUpdateBundleView::Response(ciphertext) && adopted(
            waiting,
            ciphertext,
            offering_password,
            adopting,
        ),
    ensures
        current_key(adopting, offering_password) is Ok,
        current_key(adopting, offering_password) == current_key(rotated, answering_password),
        adopting.pending_exchange is None,
        rotated.pending_exchange is None,
{
    let seed = offered_seed(waiting, offering_password)->Ok_0;
    let ciphertext = response.key_update->Response_0;
    assert(seed.len() == 64);
    assert(answered_secret(waiting, ciphertext, offering_password) == Ok::<Seq<u8>, Error>(
        kem_decapsulate(seed, ciphertext),
    ));
}

/// Rejection of stray messages. Where no outgoing offer is pending, a
/// friend acceptance and a response on a message are both refused with
/// `UnexpectedMessage`, whatever they carry and whatever the password.
pub proof fn lemma_stray_answer_is_unexpected(
    session: StoredSessionView,
    ciphertext: Seq<u8>,
    content: EncryptedPayloadView,
    password: Seq<u8>,
)
    requires
        !(session.pending_exchange matches Some(PendingKeyExchangeView::OutgoingOffer { .. })),
    ensures
        answered_secret(session, ciphertext, password) == Err::<Seq<u8>, Error>(
            Error::UnexpectedMessage,
        ),
        received(
            session,
            RatchetPayloadView { content, key_update: KeyUpdateBundleView::Response(ciphertext) },
            password,
        ) == Err::<Seq<u8>, Error>(Error::UnexpectedMessage),
{
}

} // verus!
