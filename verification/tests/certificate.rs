use noise_sv2::curve::KeyPair;
use noise_sv2::signature_message::{digest_to_sign, SignatureNoiseMessage};
use noise_sv2::Responder;

fn sample() -> [u8; 74] {
    let mut bytes = [0u8; 74];
    for i in 0..74 {
        bytes[i] = (3 * i + 1) as u8;
    }
    bytes
}

#[test]
fn the_fields_are_read_least_significant_byte_first() {
    let mut bytes = [0u8; 74];
    bytes[0] = 0x02;
    bytes[1] = 0x01;
    bytes[2] = 0x04;
    bytes[3] = 0x03;
    bytes[4] = 0x02;
    bytes[5] = 0x01;
    bytes[6] = 0xff;
    bytes[7] = 0xff;
    bytes[8] = 0xff;
    bytes[9] = 0xff;
    for i in 10..74 {
        bytes[i] = i as u8;
    }
    let message = SignatureNoiseMessage::from_bytes(bytes);
    assert_eq!(message.version, 0x0102);
    assert_eq!(message.valid_from, 0x0102_0304);
    assert_eq!(message.not_valid_after, u32::MAX);
    assert_eq!(&message.signature[..], &bytes[10..]);
    assert_eq!(message.to_bytes(), bytes);
}

#[test]
fn the_fields_are_written_least_significant_byte_first() {
    let message = SignatureNoiseMessage {
        version: 0,
        valid_from: 1_700_000_000,
        not_valid_after: 1_731_449_600,
        signature: [9u8; 64],
    };
    let bytes = message.to_bytes();
    assert_eq!(&bytes[..2], &0u16.to_le_bytes());
    assert_eq!(&bytes[2..6], &1_700_000_000u32.to_le_bytes());
    assert_eq!(&bytes[6..10], &1_731_449_600u32.to_le_bytes());
    assert_eq!(&bytes[10..], &[9u8; 64]);
    assert_eq!(bytes[2..6], [0x00, 0xf1, 0x53, 0x65]);
}

#[test]
fn converting_from_bytes_reads_the_fields() {
    let bytes = sample();
    let converted = SignatureNoiseMessage::from(bytes);
    let read = SignatureNoiseMessage::from_bytes(bytes);
    assert_eq!(converted.version, read.version);
    assert_eq!(converted.valid_from, read.valid_from);
    assert_eq!(converted.not_valid_after, read.not_valid_after);
    assert_eq!(converted.signature, read.signature);
    assert_eq!(converted.version, u16::from_le_bytes([bytes[0], bytes[1]]));
    assert_eq!(converted.to_bytes(), bytes);
    let through_into: SignatureNoiseMessage = bytes.into();
    assert_eq!(through_into.to_bytes(), bytes);
}

#[test]
fn reading_and_writing_undo_each_other() {
    let bytes = sample();
    assert_eq!(SignatureNoiseMessage::from_bytes(bytes).to_bytes(), bytes);
    assert_eq!(SignatureNoiseMessage::from_bytes([0u8; 74]).to_bytes(), [0u8; 74]);
    assert_eq!(SignatureNoiseMessage::from_bytes([0xff; 74]).to_bytes(), [0xff; 74]);
}

#[test]
fn a_signed_certificate_verifies_under_the_signing_key_only() {
    let signer = KeyPair::generate();
    let other = KeyPair::generate();
    let mut bytes = SignatureNoiseMessage {
        version: 0,
        valid_from: 100,
        not_valid_after: 200,
        signature: [0u8; 64],
    }
    .to_bytes();
    assert!(!SignatureNoiseMessage::from_bytes(bytes).verify(&signer.public_key()));
    assert!(SignatureNoiseMessage::sign(&mut bytes, &signer));
    assert_ne!(&bytes[10..], &[0u8; 64]);
    let certificate = SignatureNoiseMessage::from_bytes(bytes);
    assert_eq!(certificate.version, 0);
    assert_eq!(certificate.valid_from, 100);
    assert_eq!(certificate.not_valid_after, 200);
    assert!(certificate.verify(&signer.public_key()));
    assert!(!certificate.verify(&other.public_key()));
    let mut five = [0u8; 32];
    five[31] = 5;
    assert!(!certificate.verify(&five));
}

#[test]
fn verifying_gives_the_same_answer_every_time() {
    let signer = KeyPair::generate();
    let mut bytes = SignatureNoiseMessage {
        version: 0,
        valid_from: 100,
        not_valid_after: 200,
        signature: [0u8; 64],
    }
    .to_bytes();
    SignatureNoiseMessage::sign(&mut bytes, &signer);
    let key = signer.public_key();
    for _ in 0..5 {
        assert!(SignatureNoiseMessage::from_bytes(bytes).verify(&key));
    }
    let mut changed = bytes;
    changed[40] ^= 1;
    for _ in 0..5 {
        assert!(!SignatureNoiseMessage::from_bytes(changed).verify(&key));
    }
}

#[test]
fn any_changed_field_breaks_the_signature() {
    let signer = KeyPair::generate();
    let mut bytes = SignatureNoiseMessage {
        version: 0,
        valid_from: 100,
        not_valid_after: 200,
        signature: [0u8; 64],
    }
    .to_bytes();
    SignatureNoiseMessage::sign(&mut bytes, &signer);
    for position in [0usize, 1, 2, 5, 6, 9, 10, 42, 73] {
        let mut changed = bytes;
        changed[position] ^= 1;
        assert!(!SignatureNoiseMessage::from_bytes(changed).verify(&signer.public_key()));
    }
}

#[test]
fn an_empty_window_is_not_valid() {
    let signer = KeyPair::generate();
    let mut bytes = SignatureNoiseMessage {
        version: 0,
        valid_from: 201,
        not_valid_after: 200,
        signature: [0u8; 64],
    }
    .to_bytes();
    assert!(SignatureNoiseMessage::sign(&mut bytes, &signer));
    assert!(!SignatureNoiseMessage::from_bytes(bytes).verify(&signer.public_key()));
    // a window of one instant is not empty
    let mut bytes = SignatureNoiseMessage {
        version: 0,
        valid_from: 200,
        not_valid_after: 200,
        signature: [0u8; 64],
    }
    .to_bytes();
    assert!(SignatureNoiseMessage::sign(&mut bytes, &signer));
    assert!(SignatureNoiseMessage::from_bytes(bytes).verify(&signer.public_key()));
}

#[test]
fn an_erased_key_pair_signs_nothing() {
    let mut signer = KeyPair::generate();
    signer.erase();
    let mut bytes = sample();
    assert!(!SignatureNoiseMessage::sign(&mut bytes, &signer));
    assert_eq!(bytes, sample());
}

#[test]
fn what_is_signed_is_the_digest_of_key_and_header() {
    let key = [7u8; 32];
    let bytes = sample();
    let mut signed = key.to_vec();
    signed.extend_from_slice(&bytes[..10]);
    // the digest does not depend on the signature bytes
    let mut other = bytes;
    other[30] ^= 0xff;
    assert_eq!(digest_to_sign(&key, &bytes), digest_to_sign(&key, &other));
    let mut another = bytes;
    another[3] ^= 1;
    assert_ne!(digest_to_sign(&key, &bytes), digest_to_sign(&key, &another));
    assert_ne!(digest_to_sign(&key, &bytes), digest_to_sign(&[8u8; 32], &bytes));
    // SHA-256 of the 32 bytes of the key and the first ten of the certificate
    let state = noise_sv2::handshake::mixed_hash(&key, &bytes[..10]);
    assert_eq!(digest_to_sign(&key, &bytes), state);
}

#[test]
fn the_responder_issues_a_certificate_for_the_window_it_is_given() {
    let key_pair = Responder::generate_key();
    let public = key_pair.public_key();
    let responder = Responder::new(key_pair);
    let bytes = responder.get_signature(0, 1_700_000_000, 1_731_449_600);
    let certificate = SignatureNoiseMessage::from_bytes(bytes);
    assert_eq!(certificate.version, 0);
    assert_eq!(certificate.valid_from, 1_700_000_000);
    assert_eq!(certificate.not_valid_after, 1_731_449_600);
    assert!(certificate.verify(&public));
}
