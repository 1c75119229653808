use pq_session::aes::decrypt;
use pq_session::envelope::{EncryptedMessage, EncryptedSeed, PublicKey};
use pq_session::error::Error;
use pq_session::kem::generate_keys;
use pq_session::types::DecapsulationKey;

#[test]
fn public_key_constructors_keep_the_bytes() {
    let mut bytes = vec![0u8; 1568];
    bytes[0] = 5;
    bytes[1567] = 6;
    let mut array = [0u8; 1568];
    array[0] = 5;
    array[1567] = 6;
    assert_eq!(PublicKey::new_ciphertext(bytes.clone()), PublicKey::Ciphertext(array));
    assert_eq!(PublicKey::new_encapsulation_key(bytes), PublicKey::EncapsulationKey(array));
}

#[test]
fn public_key_tags() {
    let ciphertext = PublicKey::Ciphertext([0xA1u8; 1568]).to_bytes();
    assert_eq!(ciphertext.len(), 1569);
    assert_eq!(ciphertext[0], 0);
    assert_eq!(&ciphertext[1..], &[0xA1u8; 1568][..]);
    let key = PublicKey::EncapsulationKey([0xB2u8; 1568]).to_bytes();
    assert_eq!(key.len(), 1569);
    assert_eq!(key[0], 1);
    assert_eq!(&key[1..], &[0xB2u8; 1568][..]);
}

#[test]
fn public_key_round_trips() {
    for key in [PublicKey::Ciphertext([0xA1u8; 1568]), PublicKey::EncapsulationKey([0xB2u8; 1568])]
    {
        assert_eq!(PublicKey::from_bytes(&key.to_bytes()), Ok(key));
    }
}

#[test]
fn public_key_rejects_bad_tags_and_lengths() {
    assert_eq!(PublicKey::from_bytes(&[]), Err(Error::MalformedEncoding));
    assert_eq!(PublicKey::from_bytes(&[0u8; 1568]), Err(Error::MalformedEncoding));
    assert_eq!(PublicKey::from_bytes(&[0u8; 1570]), Err(Error::MalformedEncoding));
    assert_eq!(PublicKey::from_bytes(&[2u8; 1569]), Err(Error::MalformedEncoding));
}

#[test]
fn into_ciphertext_keeps_a_ciphertext() {
    let key = PublicKey::Ciphertext([0xA1u8; 1568]);
    assert_eq!(key.clone().into_ciphertext(), Ok(key));
}

#[test]
fn into_ciphertext_encapsulates_to_a_key() {
    let (_, encap) = generate_keys();
    let first = PublicKey::EncapsulationKey(encap.0).into_ciphertext().unwrap();
    let second = PublicKey::EncapsulationKey(encap.0).into_ciphertext().unwrap();
    assert!(matches!(first, PublicKey::Ciphertext(_)));
    assert!(matches!(second, PublicKey::Ciphertext(_)));
    assert_ne!(first, PublicKey::Ciphertext(encap.0));
    assert_ne!(first, second);
}

#[test]
fn into_ciphertext_rejects_an_invalid_key() {
    let key = PublicKey::new_encapsulation_key(vec![0xFFu8; 1568]);
    assert_eq!(key.into_ciphertext(), Err(Error::InvalidKey));
    let unchecked = PublicKey::new_ciphertext(vec![0xFFu8; 1568]);
    assert_eq!(unchecked.clone().into_ciphertext(), Ok(unchecked));
}

#[test]
fn into_ciphertext_gives_what_the_key_holder_decapsulates() {
    let (decap, encap) = generate_keys();
    match PublicKey::EncapsulationKey(encap.0).into_ciphertext() {
        Ok(PublicKey::Ciphertext(ciphertext)) => {
            let first = decap.decapsulate(ciphertext);
            let mut altered = ciphertext;
            altered[0] ^= 1;
            assert_ne!(decap.decapsulate(altered), first);
        }
        other => panic!("no ciphertext: {:?}", other),
    }
}

#[test]
fn encrypted_seed_gives_the_key_back() {
    let (decap, _) = generate_keys();
    let sealed = EncryptedSeed::new(String::from("correct horse"), &decap);
    assert_eq!(sealed.seed.len(), 64 + 16);
    assert_ne!(&sealed.seed[..64], &decap.0[..]);
    assert_eq!(sealed.decrypt(String::from("correct horse")), Ok(decap));
}

#[test]
fn encrypted_seed_fails_on_another_password() {
    let decap = DecapsulationKey([0u8; 64]);
    let sealed = EncryptedSeed::new(String::from("correct horse"), &decap);
    assert_eq!(sealed.decrypt(String::from("battery staple")), Err(Error::AuthenticationFailure));
}

#[test]
fn encrypted_seed_fails_on_altered_bytes() {
    let decap = DecapsulationKey([0u8; 64]);
    let sealed = EncryptedSeed::new(String::from("correct horse"), &decap);
    let mut altered = sealed.clone();
    altered.seed[10] ^= 0x04;
    assert_eq!(altered.decrypt(String::from("correct horse")), Err(Error::AuthenticationFailure));
    let mut altered = sealed.clone();
    altered.salt[15] ^= 0x04;
    assert_eq!(altered.decrypt(String::from("correct horse")), Err(Error::AuthenticationFailure));
    let mut altered = sealed;
    altered.nonce[0] ^= 0x04;
    assert_eq!(altered.decrypt(String::from("correct horse")), Err(Error::AuthenticationFailure));
}

#[test]
fn encrypted_seed_is_nonce_salt_seed() {
    let sealed = EncryptedSeed { nonce: [1u8; 12], salt: [2u8; 16], seed: vec![3u8; 5] };
    let bytes = sealed.to_bytes();
    let mut expected = vec![1u8; 12];
    expected.extend_from_slice(&[2u8; 16]);
    expected.extend_from_slice(&[3u8; 5]);
    assert_eq!(bytes, expected);
    assert_eq!(EncryptedSeed::from_bytes(&bytes), Ok(sealed));
    assert_eq!(EncryptedSeed::from_bytes(&bytes[..27]), Err(Error::MalformedEncoding));
}

#[test]
fn encrypted_seed_survives_its_encoding() {
    let (decap, _) = generate_keys();
    let sealed = EncryptedSeed::new(String::from("correct horse"), &decap);
    let restored = EncryptedSeed::from_bytes(&sealed.to_bytes()).unwrap();
    assert_eq!(restored.decrypt(String::from("correct horse")), Ok(decap));
}

#[test]
fn message_with_ciphertext_opens_under_the_decapsulated_secret() {
    let (decap, encap) = generate_keys();
    let (ciphertext, secret) = encap.encapsulate().unwrap();
    let sealed = EncryptedMessage::with_ciphertext(String::from("hello, world"), decap, ciphertext);
    match sealed {
        EncryptedMessage::KeyStored { nonce, message } => {
            assert_eq!(message.len(), 12 + 16);
            assert_eq!(decrypt(&message, &secret, nonce), Ok(b"hello, world".to_vec()));
        }
        EncryptedMessage::KeyEncapsulated { .. } => panic!("the key travels with the message"),
    }
}

#[test]
fn message_with_encapsulation_key_opens_for_the_key_holder() {
    let (decap, encap) = generate_keys();
    let sealed = EncryptedMessage::with_encapsulationkey(String::from("hello, world"), encap);
    match sealed {
        EncryptedMessage::KeyEncapsulated { nonce, ciphertext, message } => {
            let secret = decap.decapsulate(ciphertext);
            assert_eq!(decrypt(&message, &secret, nonce), Ok(b"hello, world".to_vec()));
        }
        EncryptedMessage::KeyStored { .. } => panic!("the key does not travel with the message"),
    }
}

#[test]
fn encrypted_message_tags() {
    let stored = EncryptedMessage::KeyStored { nonce: [7u8; 12], message: vec![8u8; 3] };
    let bytes = stored.to_bytes();
    let mut expected = vec![0u8];
    expected.extend_from_slice(&[7u8; 12]);
    expected.extend_from_slice(&[8u8; 3]);
    assert_eq!(bytes, expected);
    assert_eq!(EncryptedMessage::from_bytes(&bytes), Ok(stored));
    let encapsulated = EncryptedMessage::KeyEncapsulated {
        nonce: [7u8; 12],
        ciphertext: [9u8; 1568],
        message: vec![8u8; 3],
    };
    let bytes = encapsulated.to_bytes();
    assert_eq!(bytes.len(), 1 + 12 + 1568 + 3);
    assert_eq!(bytes[0], 1);
    assert_eq!(&bytes[1..13], &[7u8; 12][..]);
    assert_eq!(&bytes[13..1581], &[9u8; 1568][..]);
    assert_eq!(&bytes[1581..], &[8u8; 3][..]);
    assert_eq!(EncryptedMessage::from_bytes(&bytes), Ok(encapsulated));
}

#[test]
fn encrypted_message_rejects_bad_tags_and_lengths() {
    assert_eq!(EncryptedMessage::from_bytes(&[]), Err(Error::MalformedEncoding));
    assert_eq!(EncryptedMessage::from_bytes(&[2u8; 50]), Err(Error::MalformedEncoding));
    assert_eq!(EncryptedMessage::from_bytes(&[0u8; 12]), Err(Error::MalformedEncoding));
    let mut short = vec![1u8];
    short.extend_from_slice(&[0u8; 1579]);
    assert_eq!(EncryptedMessage::from_bytes(&short), Err(Error::MalformedEncoding));
    assert_eq!(
        EncryptedMessage::from_bytes(&[0u8; 13]),
        Ok(EncryptedMessage::KeyStored { nonce: [0u8; 12], message: Vec::new() })
    );
}
