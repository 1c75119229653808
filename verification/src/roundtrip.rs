//! Laws of the binary layouts: decoding undoes encoding, and a fixed-size
//! structure is decoded from no other length than its own.

use crate::codec::{
    decode_encapsulation_key, decode_fixed, decode_key_update, decode_payload, decode_pending,
    decode_protected, decode_ratchet_payload, decode_session, encode_key_update, encode_payload,
    encode_pending, encode_protected, encode_ratchet_payload, encode_session, key_update_start,
};
use crate::error::Error;
use crate::kem::encapsulation_key_valid;
use crate::types::{
    EncryptedPayloadView, KeyUpdateBundleView, PasswordProtectedDataView, PendingKeyExchangeView,
    RatchetPayloadView, StoredSessionView,
};
use vstd::prelude::*;

verus! {

/// A value of fixed size decodes from its own bytes to itself.
pub proof fn lemma_fixed_roundtrip(value: Seq<u8>, len: nat)
    requires
        value.len() == len,
    ensures
        decode_fixed(value, len) == Ok::<Seq<u8>, Error>(value),
{
}

/// A valid encapsulation key, and with it a friend request, decodes from its
/// own bytes to itself.
pub proof fn lemma_encapsulation_key_roundtrip(key: Seq<u8>)
    requires
        encapsulation_key_valid(key),
    ensures
        decode_encapsulation_key(key) == Ok::<Seq<u8>, Error>(key),
{
}

/// The structures of fixed size are decoded from their exact length only:
/// keys, ciphertexts, secrets, seeds, and with them friend requests and
/// friend acceptances.
pub proof fn lemma_wrong_length_is_malformed(bytes: Seq<u8>, len: nat)
    requires
        bytes.len() != len,
    ensures
        decode_fixed(bytes, len) == Err::<Seq<u8>, Error>(Error::MalformedEncoding),
        len == 1568 ==> decode_encapsulation_key(bytes) == Err::<Seq<u8>, Error>(
            Error::MalformedEncoding,
        ),
{
}

/// A key update is decoded from the exact length of its variant only.
pub proof fn lemma_key_update_wrong_length_is_malformed(bytes: Seq<u8>)
    requires
        bytes.len() > 0,
        bytes[0] == 0 ==> bytes.len() != 1,
        bytes[0] == 1 || bytes[0] == 2 ==> bytes.len() != 1569,
    ensures
        decode_key_update(bytes) == Err::<KeyUpdateBundleView, Error>(Error::MalformedEncoding),
{
}

/// A pending exchange that starts with the tag of an incoming offer is
/// decoded from the exact length of that variant only.
pub proof fn lemma_pending_wrong_length_is_malformed(bytes: Seq<u8>)
    requires
        bytes.len() > 0,
        bytes[0] == 1,
        bytes.len() != 1569,
    ensures
        decode_pending(bytes) == Err::<PendingKeyExchangeView, Error>(Error::MalformedEncoding),
{
}

/// A stored session whose flag says that nothing is pending is decoded from
/// the exact length of that variant only.
pub proof fn lemma_session_wrong_length_is_malformed(bytes: Seq<u8>)
    requires
        bytes.len() < 77 || (bytes[76] == 0 && bytes.len() != 77),
    ensures
        decode_session(bytes) == Err::<StoredSessionView, Error>(Error::MalformedEncoding),
{
}

/// Whatever is decoded is well formed.
pub proof fn lemma_decoded_is_well_formed(bytes: Seq<u8>)
    ensures
        decode_encapsulation_key(bytes) matches Ok(key) ==> encapsulation_key_valid(key),
        decode_payload(bytes) matches Ok(payload) ==> payload.wf(),
        decode_protected(bytes) matches Ok(data) ==> data.wf(),
        decode_key_update(bytes) matches Ok(update) ==> update.wf(),
        decode_ratchet_payload(bytes) matches Ok(payload) ==> payload.wf(),
        decode_pending(bytes) matches Ok(pending) ==> pending.wf(),
        decode_session(bytes) matches Ok(session) ==> session.wf(),
{
}

/// An encrypted payload decodes from its encoding to itself.
pub proof fn lemma_payload_roundtrip(payload: EncryptedPayloadView)
    requires
        payload.wf(),
    ensures
        decode_payload(encode_payload(payload)) == Ok::<EncryptedPayloadView, Error>(payload),
{
    let bytes = encode_payload(payload);
    assert(bytes.subrange(0, 12) =~= payload.nonce);
    assert(bytes.subrange(12, bytes.len() as int) =~= payload.ciphertext);
}

/// Password-protected data decodes from its encoding to itself.
pub proof fn lemma_protected_roundtrip(data: PasswordProtectedDataView)
    requires
        data.wf(),
    ensures
        decode_protected(encode_protected(data)) == Ok::<PasswordProtectedDataView, Error>(data),
{
    let bytes = encode_protected(data);
    assert(bytes.subrange(0, 16) =~= data.salt);
    assert(bytes.subrange(16, 28) =~= data.nonce);
    assert(bytes.subrange(28, bytes.len() as int) =~= data.ciphertext);
}

/// A key update decodes from its encoding to itself.
pub proof fn lemma_key_update_roundtrip(update: KeyUpdateBundleView)
    requires
        update.wf(),
    ensures
        decode_key_update(encode_key_update(update)) == Ok::<KeyUpdateBundleView, Error>(update),
{
    let bytes = encode_key_update(update);
    match update {
        KeyUpdateBundleView::NoUpdate => {},
        KeyUpdateBundleView::Offer(key) => {
            assert(bytes.subrange(1, bytes.len() as int) =~= key);
        },
        KeyUpdateBundleView::Response(ciphertext) => {
            assert(bytes.subrange(1, bytes.len() as int) =~= ciphertext);
        },
    }
}

/// Whether the content of a payload without a key update reads as if an
/// offer or a response followed it: the ciphertext has 1568 bytes or more,
/// and the byte 1568 from its end is the tag of one of the two.
pub open spec fn reads_as_key_update(payload: RatchetPayloadView) -> bool {
    let ciphertext = payload.content.ciphertext;
    &&& payload.key_update is NoUpdate
    &&& ciphertext.len() >= 1568
    &&& (ciphertext[ciphertext.len() - 1568] == 1 || ciphertext[ciphertext.len() - 1568] == 2)
}

/// A ratchet payload decodes from its encoding to itself, unless its content
/// reads as a key update.
pub proof fn lemma_ratchet_payload_roundtrip(payload: RatchetPayloadView)
    requires
        payload.wf(),
        !reads_as_key_update(payload),
    ensures
        decode_ratchet_payload(encode_ratchet_payload(payload)) == Ok::<RatchetPayloadView, Error>(
            payload,
        ),
{
    let content = encode_payload(payload.content);
    let update = encode_key_update(payload.key_update);
    let bytes = encode_ratchet_payload(payload);
    let at = content.len() as int;
    assert(bytes.len() == content.len() + update.len());
    match payload.key_update {
        KeyUpdateBundleView::NoUpdate => {
            if bytes.len() - 1569 >= 12 {
                let ciphertext = payload.content.ciphertext;
                assert(bytes[bytes.len() - 1569] == ciphertext[ciphertext.len() - 1568]);
            }
            assert(bytes[bytes.len() - 1] == 0);
        },
        KeyUpdateBundleView::Offer(key) => {
            assert(bytes[bytes.len() - 1569] == 1);
        },
        KeyUpdateBundleView::Response(ciphertext) => {
            assert(bytes[bytes.len() - 1569] == 2);
        },
    }
    assert(key_update_start(bytes) == Some(at));
    assert(bytes.subrange(at, bytes.len() as int) =~= update);
    assert(bytes.subrange(0, at) =~= content);
    lemma_key_update_roundtrip(payload.key_update);
    lemma_payload_roundtrip(payload.content);
}

/// A pending exchange decodes from its encoding to itself.
pub proof fn lemma_pending_roundtrip(pending: PendingKeyExchangeView)
    requires
        pending.wf(),
    ensures
        decode_pending(encode_pending(pending)) == Ok::<PendingKeyExchangeView, Error>(pending),
{
    let bytes = encode_pending(pending);
    match pending {
        PendingKeyExchangeView::OutgoingOffer { decapsulation_key } => {
            assert(bytes.subrange(1, bytes.len() as int) =~= encode_protected(decapsulation_key));
            lemma_protected_roundtrip(decapsulation_key);
        },
        PendingKeyExchangeView::IncomingOffer { encapsulation_key } => {
            assert(bytes.subrange(1, bytes.len() as int) =~= encapsulation_key);
        },
    }
}

/// A stored session decodes from its encoding to itself.
pub proof fn lemma_session_roundtrip(session: StoredSessionView)
    requires
        session.wf(),
    ensures
        decode_session(encode_session(session)) == Ok::<StoredSessionView, Error>(session),
{
    let secret = encode_protected(session.current_secret);
    let bytes = encode_session(session);
    assert(secret.len() == 76);
    assert(bytes.subrange(0, 76) =~= secret);
    lemma_protected_roundtrip(session.current_secret);
    match session.pending_exchange {
        None => {},
        Some(pending) => {
            assert(bytes.subrange(77, bytes.len() as int) =~= encode_pending(pending));
            lemma_pending_roundtrip(pending);
        },
    }
}

} // verus!
