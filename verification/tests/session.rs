use pq_session::error::Error;
use pq_session::kem::generate_keys;
use pq_session::sealed::{open, open_with_password, seal, seal_with_password, unlock};
use pq_session::types::{
    EncapsulationKey, EncryptedPayload, FriendAccept, FriendRequest, KeyUpdateBundle,
    PasswordProtectedData, PendingKeyExchange, RatchetPayload, StoredSession,
};

const ALICE: &str = "correct horse";
const BOB: &str = "battery staple";

fn established() -> (StoredSession, StoredSession) {
    let (mut alice, request) = StoredSession::initiate(ALICE);
    let (bob, accept) = StoredSession::accept(&request, BOB).unwrap();
    alice.complete_handshake(&accept, ALICE).unwrap();
    (alice, bob)
}

#[test]
fn initiate_leaves_an_outgoing_offer_and_no_secret() {
    let (session, request) = StoredSession::initiate(ALICE);
    assert!(request.encapsulation_key.is_valid());
    assert_eq!(
        session.current_secret,
        PasswordProtectedData { salt: [0u8; 16], nonce: [0u8; 12], ciphertext: vec![0u8; 48] }
    );
    match &session.pending_exchange {
        Some(PendingKeyExchange::OutgoingOffer { decapsulation_key }) => {
            assert_eq!(decapsulation_key.ciphertext.len(), 64 + 16);
            let seed = unlock::<64>(decapsulation_key, ALICE).unwrap();
            let key = pq_session::types::DecapsulationKey(seed);
            assert_eq!(key.encapsulation_key(), request.encapsulation_key);
        }
        other => panic!("no outgoing offer: {:?}", other),
    }
    assert_eq!(session.open_secret(ALICE), Err(Error::AuthenticationFailure));
}

#[test]
fn accept_establishes_the_responder_in_one_step() {
    let (decap, encap) = generate_keys();
    let request = FriendRequest { encapsulation_key: encap };
    let (session, accept) = StoredSession::accept(&request, BOB).unwrap();
    assert_eq!(session.pending_exchange, None);
    assert_eq!(session.current_secret.ciphertext.len(), 32 + 16);
    let secret = session.open_secret(BOB).unwrap();
    assert_eq!(decap.decapsulate(accept.kem_ciphertext), secret);
}

#[test]
fn accept_rejects_an_invalid_key() {
    let request = FriendRequest { encapsulation_key: EncapsulationKey([0xFFu8; 1568]) };
    assert_eq!(StoredSession::accept(&request, BOB), Err(Error::InvalidKey));
}

#[test]
fn handshake_converges() {
    let (mut alice, request) = StoredSession::initiate(ALICE);
    let (bob, accept) = StoredSession::accept(&request, BOB).unwrap();
    assert_eq!(alice.complete_handshake(&accept, ALICE), Ok(()));
    assert_eq!(alice.pending_exchange, None);
    assert_eq!(bob.pending_exchange, None);
    let alice_secret = alice.open_secret(ALICE).unwrap();
    let bob_secret = bob.open_secret(BOB).unwrap();
    assert_eq!(alice_secret, bob_secret);
    assert_ne!(alice_secret, [0u8; 32]);
}

#[test]
fn handshake_converges_across_the_wire_and_the_disk() {
    let (alice, request) = StoredSession::initiate(ALICE);
    let stored = alice.to_bytes();
    let request = FriendRequest::from_bytes(&request.to_bytes()).unwrap();
    let (bob, accept) = StoredSession::accept(&request, BOB).unwrap();
    let accept = FriendAccept::from_bytes(&accept.to_bytes()).unwrap();
    let mut alice = StoredSession::from_bytes(&stored).unwrap();
    alice.complete_handshake(&accept, ALICE).unwrap();
    let alice = StoredSession::from_bytes(&alice.to_bytes()).unwrap();
    let bob = StoredSession::from_bytes(&bob.to_bytes()).unwrap();
    assert_eq!(alice.open_secret(ALICE).unwrap(), bob.open_secret(BOB).unwrap());
    assert_eq!(alice.to_bytes().len(), 77);
}

#[test]
fn stray_friend_accept_is_unexpected() {
    let (_, mut bob) = established();
    let before = bob.clone();
    let accept = FriendAccept { kem_ciphertext: [0x44u8; 1568] };
    assert_eq!(bob.complete_handshake(&accept, BOB), Err(Error::UnexpectedMessage));
    assert_eq!(bob, before);
    assert_eq!(bob.complete_handshake(&accept, "not the password"), Err(Error::UnexpectedMessage));
    assert_eq!(bob, before);
}

#[test]
fn second_friend_accept_is_unexpected() {
    let (mut alice, request) = StoredSession::initiate(ALICE);
    let (_, accept) = StoredSession::accept(&request, BOB).unwrap();
    alice.complete_handshake(&accept, ALICE).unwrap();
    let before = alice.clone();
    assert_eq!(alice.complete_handshake(&accept, ALICE), Err(Error::UnexpectedMessage));
    assert_eq!(alice, before);
}

#[test]
fn friend_accept_meeting_an_incoming_offer_is_unexpected() {
    let (_, mut bob) = established();
    let (_, encap) = generate_keys();
    bob.pending_exchange = Some(PendingKeyExchange::IncomingOffer { encapsulation_key: encap });
    let before = bob.clone();
    let accept = FriendAccept { kem_ciphertext: [0x44u8; 1568] };
    assert_eq!(bob.complete_handshake(&accept, BOB), Err(Error::UnexpectedMessage));
    assert_eq!(bob, before);
}

#[test]
fn complete_handshake_fails_on_a_wrong_password() {
    let (mut alice, request) = StoredSession::initiate(ALICE);
    let (_, accept) = StoredSession::accept(&request, BOB).unwrap();
    let before = alice.clone();
    assert_eq!(alice.complete_handshake(&accept, BOB), Err(Error::AuthenticationFailure));
    assert_eq!(alice, before);
    assert_eq!(alice.complete_handshake(&accept, ALICE), Ok(()));
}

#[test]
fn complete_handshake_fails_on_a_sealed_value_that_is_no_seed() {
    let mut session = StoredSession {
        current_secret: seal_with_password(&[0u8; 32], ALICE, None),
        pending_exchange: Some(PendingKeyExchange::OutgoingOffer {
            decapsulation_key: seal_with_password(&[0u8; 63], ALICE, None),
        }),
    };
    let before = session.clone();
    let accept = FriendAccept { kem_ciphertext: [0x44u8; 1568] };
    assert_eq!(session.complete_handshake(&accept, ALICE), Err(Error::MalformedEncoding));
    assert_eq!(session, before);
}

#[test]
fn open_secret_fails_on_a_wrong_password() {
    let (alice, bob) = established();
    assert_eq!(alice.open_secret(BOB), Err(Error::AuthenticationFailure));
    assert_eq!(bob.open_secret(ALICE), Err(Error::AuthenticationFailure));
}

#[test]
fn open_secret_fails_on_a_sealed_value_that_is_no_secret() {
    let session = StoredSession {
        current_secret: seal_with_password(&[0u8; 31], ALICE, None),
        pending_exchange: None,
    };
    assert_eq!(session.open_secret(ALICE), Err(Error::MalformedEncoding));
}

#[test]
fn steady_state_messages_flow_both_ways() {
    let (mut alice, mut bob) = established();
    let payload = alice.seal_message(b"hello bob", ALICE).unwrap();
    assert_eq!(payload.key_update, KeyUpdateBundle::NoUpdate);
    assert_eq!(payload.content.ciphertext.len(), 9 + 16);
    let before = bob.clone();
    assert_eq!(bob.receive(&payload, BOB), Ok(b"hello bob".to_vec()));
    assert_eq!(bob, before);
    let payload = bob.seal_message(b"hello alice", BOB).unwrap();
    let payload = RatchetPayload::from_bytes(&payload.to_bytes()).unwrap();
    assert_eq!(alice.receive(&payload, ALICE), Ok(b"hello alice".to_vec()));
}

#[test]
fn seal_message_fails_on_a_wrong_password() {
    let (alice, _) = established();
    assert_eq!(alice.seal_message(b"hello", BOB), Err(Error::AuthenticationFailure));
}

#[test]
fn receive_fails_on_content_under_another_secret() {
    let (_, mut bob) = established();
    let before = bob.clone();
    let payload =
        RatchetPayload { content: seal(b"hello", &[0u8; 32]), key_update: KeyUpdateBundle::NoUpdate };
    assert_eq!(bob.receive(&payload, BOB), Err(Error::AuthenticationFailure));
    assert_eq!(bob, before);
}

#[test]
fn receive_fails_on_a_wrong_password() {
    let (alice, mut bob) = established();
    let payload = alice.seal_message(b"hello", ALICE).unwrap();
    let before = bob.clone();
    assert_eq!(bob.receive(&payload, ALICE), Err(Error::AuthenticationFailure));
    assert_eq!(bob, before);
}

#[test]
fn rekey_converges() {
    let (mut alice, mut bob) = established();
    let old_secret = alice.open_secret(ALICE).unwrap();

    let offer = alice.offer_rekey(b"time to rotate", ALICE).unwrap();
    assert!(matches!(offer.key_update, KeyUpdateBundle::Offer(_)));
    assert!(matches!(alice.pending_exchange, Some(PendingKeyExchange::OutgoingOffer { .. })));
    assert_eq!(alice.open_secret(ALICE), Ok(old_secret));

    assert_eq!(bob.receive(&offer, BOB), Ok(b"time to rotate".to_vec()));
    match (&bob.pending_exchange, &offer.key_update) {
        (
            Some(PendingKeyExchange::IncomingOffer { encapsulation_key }),
            KeyUpdateBundle::Offer(offered),
        ) => assert_eq!(encapsulation_key, offered),
        other => panic!("the offer was not noted: {:?}", other),
    }
    assert_eq!(bob.open_secret(BOB), Ok(old_secret));

    let response = bob.answer_rekey(b"rotating", BOB).unwrap();
    assert!(matches!(response.key_update, KeyUpdateBundle::Response(_)));
    assert_eq!(bob.pending_exchange, None);
    assert_eq!(open(&response.content, &old_secret), Ok(b"rotating".to_vec()));

    assert_eq!(alice.receive(&response, ALICE), Ok(b"rotating".to_vec()));
    assert_eq!(alice.pending_exchange, None);

    let alice_secret = alice.open_secret(ALICE).unwrap();
    let bob_secret = bob.open_secret(BOB).unwrap();
    assert_eq!(alice_secret, bob_secret);
    assert_ne!(alice_secret, old_secret);
}

#[test]
fn rekey_converges_across_the_wire_and_the_disk() {
    let (mut alice, mut bob) = established();
    let offer = alice.offer_rekey(b"one", ALICE).unwrap();
    let offer = RatchetPayload::from_bytes(&offer.to_bytes()).unwrap();
    let mut alice = StoredSession::from_bytes(&alice.to_bytes()).unwrap();
    bob.receive(&offer, BOB).unwrap();
    let mut bob = StoredSession::from_bytes(&bob.to_bytes()).unwrap();
    let response = bob.answer_rekey(b"two", BOB).unwrap();
    let response = RatchetPayload::from_bytes(&response.to_bytes()).unwrap();
    assert_eq!(alice.receive(&response, ALICE), Ok(b"two".to_vec()));
    assert_eq!(alice.open_secret(ALICE).unwrap(), bob.open_secret(BOB).unwrap());
    let payload = alice.seal_message(b"three", ALICE).unwrap();
    assert_eq!(bob.receive(&payload, BOB), Ok(b"three".to_vec()));
}

#[test]
fn message_under_the_old_secret_no_longer_opens_after_a_rekey() {
    let (mut alice, mut bob) = established();
    let stale = alice.seal_message(b"sealed before the rotation", ALICE).unwrap();
    let offer = alice.offer_rekey(b"", ALICE).unwrap();
    bob.receive(&offer, BOB).unwrap();
    let response = bob.answer_rekey(b"", BOB).unwrap();
    alice.receive(&response, ALICE).unwrap();
    let before = bob.clone();
    assert_eq!(bob.receive(&stale, BOB), Err(Error::AuthenticationFailure));
    assert_eq!(bob, before);
    let fresh = alice.seal_message(b"sealed after the rotation", ALICE).unwrap();
    assert_eq!(bob.receive(&fresh, BOB), Ok(b"sealed after the rotation".to_vec()));
}

#[test]
fn message_under_the_new_secret_does_not_open_before_the_response_arrives() {
    let (mut alice, mut bob) = established();
    let offer = alice.offer_rekey(b"", ALICE).unwrap();
    bob.receive(&offer, BOB).unwrap();
    let response = bob.answer_rekey(b"", BOB).unwrap();
    let early = bob.seal_message(b"under the new secret", BOB).unwrap();
    let before = alice.clone();
    assert_eq!(alice.receive(&early, ALICE), Err(Error::AuthenticationFailure));
    assert_eq!(alice, before);
    alice.receive(&response, ALICE).unwrap();
    assert_eq!(alice.receive(&early, ALICE), Ok(b"under the new secret".to_vec()));
}

#[test]
fn stray_response_is_unexpected() {
    let (alice, mut bob) = established();
    let secret = alice.open_secret(ALICE).unwrap();
    let payload = RatchetPayload {
        content: seal(b"hello", &secret),
        key_update: KeyUpdateBundle::Response([0x44u8; 1568]),
    };
    let before = bob.clone();
    assert_eq!(bob.receive(&payload, BOB), Err(Error::UnexpectedMessage));
    assert_eq!(bob, before);
    assert_eq!(bob.receive(&payload, "not the password"), Err(Error::UnexpectedMessage));
    assert_eq!(bob, before);
}

#[test]
fn response_meeting_an_incoming_offer_is_unexpected() {
    let (mut alice, mut bob) = established();
    let offer = alice.offer_rekey(b"", ALICE).unwrap();
    bob.receive(&offer, BOB).unwrap();
    let secret = bob.open_secret(BOB).unwrap();
    let payload = RatchetPayload {
        content: seal(b"hello", &secret),
        key_update: KeyUpdateBundle::Response([0x44u8; 1568]),
    };
    let before = bob.clone();
    assert_eq!(bob.receive(&payload, BOB), Err(Error::UnexpectedMessage));
    assert_eq!(bob, before);
}

#[test]
fn second_response_is_unexpected() {
    let (mut alice, mut bob) = established();
    let offer = alice.offer_rekey(b"", ALICE).unwrap();
    bob.receive(&offer, BOB).unwrap();
    let response = bob.answer_rekey(b"", BOB).unwrap();
    alice.receive(&response, ALICE).unwrap();
    let before = alice.clone();
    assert_eq!(alice.receive(&response, ALICE), Err(Error::UnexpectedMessage));
    assert_eq!(alice, before);
}

#[test]
fn offer_while_an_exchange_is_pending_is_refused() {
    let (mut alice, mut bob) = established();
    let offer = alice.offer_rekey(b"", ALICE).unwrap();
    let before = alice.clone();
    assert_eq!(alice.offer_rekey(b"again", ALICE), Err(Error::UnexpectedMessage));
    assert_eq!(alice, before);
    bob.receive(&offer, BOB).unwrap();
    let before = bob.clone();
    assert_eq!(bob.offer_rekey(b"mine", BOB), Err(Error::UnexpectedMessage));
    assert_eq!(bob, before);
}

#[test]
fn offer_arriving_while_an_exchange_is_pending_is_refused() {
    let (mut alice, mut bob) = established();
    let from_alice = alice.offer_rekey(b"", ALICE).unwrap();
    let from_bob = bob.offer_rekey(b"", BOB).unwrap();
    let before = alice.clone();
    assert_eq!(alice.receive(&from_bob, ALICE), Err(Error::UnexpectedMessage));
    assert_eq!(alice, before);
    let before = bob.clone();
    assert_eq!(bob.receive(&from_alice, BOB), Err(Error::UnexpectedMessage));
    assert_eq!(bob, before);
    assert_eq!(alice.open_secret(ALICE).unwrap(), bob.open_secret(BOB).unwrap());
}

#[test]
fn offer_with_an_invalid_key_is_refused() {
    let (alice, mut bob) = established();
    let secret = alice.open_secret(ALICE).unwrap();
    let payload = RatchetPayload {
        content: seal(b"hello", &secret),
        key_update: KeyUpdateBundle::Offer(EncapsulationKey([0xFFu8; 1568])),
    };
    let before = bob.clone();
    assert_eq!(bob.receive(&payload, BOB), Err(Error::InvalidKey));
    assert_eq!(bob, before);
}

#[test]
fn offer_on_content_that_does_not_open_is_not_noted() {
    let (_, mut bob) = established();
    let (_, encap) = generate_keys();
    let payload = RatchetPayload {
        content: EncryptedPayload { nonce: [0u8; 12], ciphertext: vec![0u8; 30] },
        key_update: KeyUpdateBundle::Offer(encap),
    };
    let before = bob.clone();
    assert_eq!(bob.receive(&payload, BOB), Err(Error::AuthenticationFailure));
    assert_eq!(bob, before);
}

#[test]
fn answer_with_nothing_pending_has_no_pending_exchange() {
    let (mut alice, _) = established();
    let before = alice.clone();
    assert_eq!(alice.answer_rekey(b"", ALICE), Err(Error::NoPendingExchange));
    assert_eq!(alice, before);
}

#[test]
fn answer_to_an_own_offer_has_no_pending_exchange() {
    let (mut alice, _) = established();
    alice.offer_rekey(b"", ALICE).unwrap();
    let before = alice.clone();
    assert_eq!(alice.answer_rekey(b"", ALICE), Err(Error::NoPendingExchange));
    assert_eq!(alice, before);
}

#[test]
fn answer_to_an_invalid_key_is_refused() {
    let (mut alice, _) = established();
    alice.pending_exchange = Some(PendingKeyExchange::IncomingOffer {
        encapsulation_key: EncapsulationKey([0xFFu8; 1568]),
    });
    let before = alice.clone();
    assert_eq!(alice.answer_rekey(b"", ALICE), Err(Error::InvalidKey));
    assert_eq!(alice, before);
}

#[test]
fn answer_fails_on_a_wrong_password() {
    let (mut alice, mut bob) = established();
    let offer = alice.offer_rekey(b"", ALICE).unwrap();
    bob.receive(&offer, BOB).unwrap();
    let before = bob.clone();
    assert_eq!(bob.answer_rekey(b"", ALICE), Err(Error::AuthenticationFailure));
    assert_eq!(bob, before);
}

#[test]
fn response_fails_on_a_wrong_password_and_keeps_the_offer() {
    let (mut alice, mut bob) = established();
    let offer = alice.offer_rekey(b"", ALICE).unwrap();
    bob.receive(&offer, BOB).unwrap();
    let response = bob.answer_rekey(b"", BOB).unwrap();
    let before = alice.clone();
    assert_eq!(alice.receive(&response, BOB), Err(Error::AuthenticationFailure));
    assert_eq!(alice, before);
    assert_eq!(alice.receive(&response, ALICE), Ok(Vec::new()));
}

#[test]
fn stored_session_with_a_wrong_password_is_unusable_as_a_whole() {
    let (mut alice, _) = established();
    alice.offer_rekey(b"", ALICE).unwrap();
    let loaded = StoredSession::from_bytes(&alice.to_bytes()).unwrap();
    assert_eq!(loaded.open_secret("guess"), Err(Error::AuthenticationFailure));
    match &loaded.pending_exchange {
        Some(PendingKeyExchange::OutgoingOffer { decapsulation_key }) => {
            assert_eq!(
                open_with_password(decapsulation_key, "guess"),
                Err(Error::AuthenticationFailure)
            );
            assert!(open_with_password(decapsulation_key, ALICE).is_ok());
        }
        other => panic!("no outgoing offer: {:?}", other),
    }
    assert!(loaded.open_secret(ALICE).is_ok());
}

#[test]
fn sealed_seed_never_holds_the_seed_in_the_clear() {
    let (session, _) = StoredSession::initiate(ALICE);
    match &session.pending_exchange {
        Some(PendingKeyExchange::OutgoingOffer { decapsulation_key }) => {
            let seed = unlock::<64>(decapsulation_key, ALICE).unwrap();
            assert_ne!(&decapsulation_key.ciphertext[..64], &seed[..]);
        }
        other => panic!("no outgoing offer: {:?}", other),
    }
}
