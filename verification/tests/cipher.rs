use noise_sv2::aed_cipher::{AeadCipher, Aes256Gcm, ChaCha20Poly1305};
use noise_sv2::cipher_state::{nonce_for, Cipher, GenericCipher};
use noise_sv2::{Error, Initiator, NoiseCodec, Responder, VALIDITY};

fn hex(text: &str) -> Vec<u8> {
    let digits: Vec<u8> = text.bytes().filter(|b| !b.is_ascii_whitespace()).collect();
    digits
        .chunks(2)
        .map(|pair| {
            let high = (pair[0] as char).to_digit(16).unwrap() as u8;
            let low = (pair[1] as char).to_digit(16).unwrap() as u8;
            high * 16 + low
        })
        .collect()
}

fn counted_key(from: u8) -> [u8; 32] {
    let mut key = [0u8; 32];
    for i in 0..32 {
        key[i] = from + i as u8;
    }
    key
}

// The sentence of the AEAD example of RFC 8439.
const SUNSCREEN: &[u8] = b"Ladies and Gentlemen of the class of '99: If I could offer you only one tip for the future, sunscreen would be it.";

#[test]
fn chacha20_poly1305_known_answer() {
    let mut cipher = ChaCha20Poly1305::from_key(counted_key(0x80));
    let nonce = [0x07, 0, 0, 0, 0x40, 0x41, 0x42, 0x43, 0x44, 0x45, 0x46, 0x47];
    let ad = hex("50515253c0c1c2c3c4c5c6c7");
    let mut data = SUNSCREEN.to_vec();
    cipher.encrypt(&nonce, &ad, &mut data).unwrap();
    let expected = hex(
        "d31a8d34648e60db7b86afbc53ef7ec2
         a4aded51296e08fea9e2b5a736ee62d6
         3dbea45e8ca9671282fafb69da92728b
         1a71de0a9e060b2905d6a5b67ecd3b36
         92ddbd7f2d778b8c9803aee328091b58
         fab324e4fad675945585808b4831d7bc
         3ff4def08e4b7a9de576d26586cec64b
         6116
         1ae10b594f09e26a7e902ecbd0600691",
    );
    assert_eq!(data, expected);
    cipher.decrypt(&nonce, &ad, &mut data).unwrap();
    assert_eq!(data, SUNSCREEN.to_vec());
}

#[test]
fn aes_256_gcm_known_answers() {
    let mut cipher = Aes256Gcm::from_key([0u8; 32]);
    let nonce = [0u8; 12];
    let mut nothing: Vec<u8> = Vec::new();
    cipher.encrypt(&nonce, &[], &mut nothing).unwrap();
    assert_eq!(nothing, hex("530f8afbc74536b9a963b4f1c4cb738b"));
    let mut block = vec![0u8; 16];
    cipher.encrypt(&nonce, &[], &mut block).unwrap();
    assert_eq!(
        block,
        hex("cea7403d4d606b6e074ec5d3baf39d18 d0d1c8a799996bf0265b98b5d48ab919")
    );
    cipher.decrypt(&nonce, &[], &mut block).unwrap();
    assert_eq!(block, vec![0u8; 16]);
    cipher.decrypt(&nonce, &[], &mut nothing).unwrap();
    assert!(nothing.is_empty());
}

#[test]
fn decryption_fails_on_any_change_and_leaves_the_buffer() {
    let mut chacha = ChaCha20Poly1305::from_key(counted_key(1));
    let mut aes = Aes256Gcm::from_key(counted_key(1));
    let nonce = nonce_for(3);
    let mut sealed_chacha = b"ciao".to_vec();
    chacha.encrypt(&nonce, b"ad", &mut sealed_chacha).unwrap();
    let mut sealed_aes = b"ciao".to_vec();
    aes.encrypt(&nonce, b"ad", &mut sealed_aes).unwrap();
    assert_ne!(sealed_chacha, sealed_aes);
    for position in 0..20 {
        for bit in 0..8 {
            let mut changed = sealed_chacha.clone();
            changed[position] ^= 1 << bit;
            let kept = changed.clone();
            assert!(matches!(chacha.decrypt(&nonce, b"ad", &mut changed), Err(Error::AeadFailure)));
            assert_eq!(changed, kept);
            let mut changed = sealed_aes.clone();
            changed[position] ^= 1 << bit;
            let kept = changed.clone();
            assert!(matches!(aes.decrypt(&nonce, b"ad", &mut changed), Err(Error::AeadFailure)));
            assert_eq!(changed, kept);
        }
    }
    // another nonce, other associated data, another key, a missing byte
    let mut other = sealed_chacha.clone();
    assert!(chacha.decrypt(&nonce_for(4), b"ad", &mut other).is_err());
    assert!(chacha.decrypt(&nonce, b"da", &mut other).is_err());
    assert!(ChaCha20Poly1305::from_key(counted_key(2)).decrypt(&nonce, b"ad", &mut other).is_err());
    other.pop();
    assert!(chacha.decrypt(&nonce, b"ad", &mut other).is_err());
    let mut short = vec![1u8, 2, 3];
    assert!(chacha.decrypt(&nonce, b"ad", &mut short).is_err());
    assert_eq!(short, vec![1u8, 2, 3]);
    assert!(aes.decrypt(&nonce, b"ad", &mut short).is_err());
    assert_eq!(short, vec![1u8, 2, 3]);
    // the genuine one still opens
    chacha.decrypt(&nonce, b"ad", &mut sealed_chacha).unwrap();
    assert_eq!(sealed_chacha, b"ciao".to_vec());
    aes.decrypt(&nonce, b"ad", &mut sealed_aes).unwrap();
    assert_eq!(sealed_aes, b"ciao".to_vec());
}

#[test]
fn an_erased_cipher_holds_the_zero_key() {
    let mut cipher = ChaCha20Poly1305::from_key(counted_key(1));
    let mut zero = ChaCha20Poly1305::from_key([0u8; 32]);
    cipher.erase();
    let nonce = nonce_for(0);
    let mut a = b"ciao".to_vec();
    cipher.encrypt(&nonce, &[], &mut a).unwrap();
    let mut b = b"ciao".to_vec();
    zero.encrypt(&nonce, &[], &mut b).unwrap();
    assert_eq!(a, b);
    let mut cipher = Aes256Gcm::from_key(counted_key(1));
    let mut zero = Aes256Gcm::from_key([0u8; 32]);
    cipher.erase();
    let mut a = b"ciao".to_vec();
    cipher.encrypt(&nonce, &[], &mut a).unwrap();
    let mut b = b"ciao".to_vec();
    zero.encrypt(&nonce, &[], &mut b).unwrap();
    assert_eq!(a, b);
}

#[test]
fn nonces_are_four_zeros_and_the_counter_least_significant_byte_first() {
    assert_eq!(nonce_for(0), [0u8; 12]);
    assert_eq!(nonce_for(1), [0, 0, 0, 0, 1, 0, 0, 0, 0, 0, 0, 0]);
    assert_eq!(nonce_for(258), [0, 0, 0, 0, 2, 1, 0, 0, 0, 0, 0, 0]);
    assert_eq!(
        nonce_for(0x0102_0304_0506_0708),
        [0, 0, 0, 0, 8, 7, 6, 5, 4, 3, 2, 1]
    );
    assert_eq!(
        nonce_for(u64::MAX),
        [0, 0, 0, 0, 255, 255, 255, 255, 255, 255, 255, 255]
    );
    for n in [0u64, 1, 255, 256, 65535, 1 << 32, u64::MAX - 1, u64::MAX] {
        let nonce = nonce_for(n);
        assert_eq!(&nonce[..4], &[0, 0, 0, 0]);
        assert_eq!(&nonce[4..], &n.to_le_bytes());
    }
    let mut state = Cipher::<ChaCha20Poly1305>::from_key(counted_key(0));
    state.set_n(0x0102);
    assert_eq!(state.nonce_to_bytes(), [0, 0, 0, 0, 2, 1, 0, 0, 0, 0, 0, 0]);
}

#[test]
fn a_cipher_state_uses_its_counter_as_nonce_and_advances_it() {
    let mut state = Cipher::<ChaCha20Poly1305>::from_key(counted_key(5));
    let mut cipher = ChaCha20Poly1305::from_key(counted_key(5));
    assert!(state.has_key());
    assert_eq!(state.get_n(), 0);
    for n in 0..3u64 {
        let mut by_state = b"ciao".to_vec();
        state.encrypt_with_ad(b"ad", &mut by_state).unwrap();
        let mut by_cipher = b"ciao".to_vec();
        cipher.encrypt(&nonce_for(n), b"ad", &mut by_cipher).unwrap();
        assert_eq!(by_state, by_cipher);
        assert_eq!(state.get_n(), n + 1);
    }
}

#[test]
fn a_cipher_state_without_a_key_refuses() {
    let mut state = Cipher::<ChaCha20Poly1305>::new();
    assert!(!state.has_key());
    let mut data = b"ciao".to_vec();
    assert!(matches!(state.encrypt_with_ad(&[], &mut data), Err(Error::InvalidCipherState)));
    assert_eq!(data, b"ciao".to_vec());
    assert!(matches!(state.decrypt_with_ad(&[], &mut data), Err(Error::InvalidCipherState)));
    assert_eq!(data, b"ciao".to_vec());
    assert_eq!(state.get_n(), 0);
}

#[test]
fn the_last_counter_is_never_used() {
    let mut sender = Cipher::<ChaCha20Poly1305>::from_key(counted_key(5));
    let mut receiver = Cipher::<ChaCha20Poly1305>::from_key(counted_key(5));
    sender.set_n(u64::MAX - 1);
    receiver.set_n(u64::MAX - 1);
    let mut data = b"ciao".to_vec();
    sender.encrypt_with_ad(&[], &mut data).unwrap();
    assert_eq!(sender.get_n(), u64::MAX);
    receiver.decrypt_with_ad(&[], &mut data).unwrap();
    assert_eq!(receiver.get_n(), u64::MAX);
    assert_eq!(data, b"ciao".to_vec());
    assert!(matches!(sender.encrypt_with_ad(&[], &mut data), Err(Error::InvalidCipherState)));
    assert_eq!(data, b"ciao".to_vec());
    assert_eq!(sender.get_n(), u64::MAX);
    assert!(matches!(receiver.decrypt_with_ad(&[], &mut data), Err(Error::InvalidCipherState)));
    assert_eq!(receiver.get_n(), u64::MAX);
}

#[test]
fn erasing_the_residual_key_keeps_the_cipher() {
    let mut sender = Cipher::<ChaCha20Poly1305>::from_key(counted_key(5));
    let mut receiver = Cipher::<ChaCha20Poly1305>::from_key(counted_key(5));
    sender.erase_k();
    let mut data = b"ciao".to_vec();
    sender.encrypt_with_ad(&[], &mut data).unwrap();
    receiver.decrypt_with_ad(&[], &mut data).unwrap();
    assert_eq!(data, b"ciao".to_vec());
    // without the residual key there is nothing to move to another cipher
    assert!(sender.into_aesg().is_none());
    receiver.erase();
    assert!(!receiver.has_key());
    assert!(matches!(receiver.decrypt_with_ad(&[], &mut data), Err(Error::InvalidCipherState)));
}

#[test]
fn moving_to_aes_gcm_keeps_the_key_and_restarts_the_counter() {
    let mut state = Cipher::<ChaCha20Poly1305>::from_key(counted_key(5));
    let mut data = b"ciao".to_vec();
    state.encrypt_with_ad(&[], &mut data).unwrap();
    let mut moved = state.into_aesg().unwrap();
    assert_eq!(moved.get_n(), 0);
    let mut by_state = b"ciao".to_vec();
    moved.encrypt_with_ad(b"ad", &mut by_state).unwrap();
    let mut by_cipher = b"ciao".to_vec();
    Aes256Gcm::from_key(counted_key(5)).encrypt(&nonce_for(0), b"ad", &mut by_cipher).unwrap();
    assert_eq!(by_state, by_cipher);
    assert_eq!(moved.get_n(), 1);
}

#[test]
fn a_state_under_aes_gcm_keeps_its_counter_when_moved_again() {
    let mut sender = GenericCipher::ChaCha20Poly1305(Cipher::from_key(counted_key(5)))
        .into_aesg()
        .unwrap();
    let mut receiver = GenericCipher::Aes256Gcm(Cipher::from_key(counted_key(5)));
    let mut first = b"one".to_vec();
    sender.encrypt(&mut first).unwrap();
    receiver.decrypt(&mut first).unwrap();
    let mut sender = sender.into_aesg().unwrap();
    let mut second = b"two".to_vec();
    sender.encrypt(&mut second).unwrap();
    // the second frame went out under the second nonce
    receiver.decrypt(&mut second).unwrap();
    assert_eq!(second, b"two".to_vec());
    let mut erased = GenericCipher::ChaCha20Poly1305(Cipher::from_key(counted_key(5)));
    erased.erase_k();
    assert!(erased.into_aesg().is_none());
}

fn codec_of(key_out: [u8; 32], key_in: [u8; 32]) -> NoiseCodec {
    NoiseCodec::new(
        GenericCipher::ChaCha20Poly1305(Cipher::from_key(key_out)),
        GenericCipher::ChaCha20Poly1305(Cipher::from_key(key_in)),
    )
}

#[test]
fn a_codec_seals_without_associated_data() {
    let mut codec = codec_of(counted_key(1), counted_key(2));
    let mut by_codec = b"ciao".to_vec();
    codec.encrypt(&mut by_codec).unwrap();
    let mut by_cipher = b"ciao".to_vec();
    ChaCha20Poly1305::from_key(counted_key(1)).encrypt(&nonce_for(0), &[], &mut by_cipher).unwrap();
    assert_eq!(by_codec, by_cipher);
    let mut second = b"ciao".to_vec();
    codec.encrypt(&mut second).unwrap();
    let mut by_cipher = b"ciao".to_vec();
    ChaCha20Poly1305::from_key(counted_key(1)).encrypt(&nonce_for(1), &[], &mut by_cipher).unwrap();
    assert_eq!(second, by_cipher);
    assert_ne!(second, by_codec);
}

#[test]
fn messages_of_many_lengths_come_back() {
    let mut sender = codec_of(counted_key(1), counted_key(2));
    let mut receiver = codec_of(counted_key(2), counted_key(1));
    for len in [0usize, 1, 15, 16, 17, 63, 64, 65, 1000, 70_000] {
        let message: Vec<u8> = (0..len).map(|i| (i % 251) as u8).collect();
        let mut buffer = message.clone();
        sender.encrypt(&mut buffer).unwrap();
        assert_eq!(buffer.len(), len + 16);
        receiver.decrypt(&mut buffer).unwrap();
        assert_eq!(buffer, message);
        receiver.encrypt(&mut buffer).unwrap();
        sender.decrypt(&mut buffer).unwrap();
        assert_eq!(buffer, message);
    }
}

#[test]
fn frames_out_of_order_are_refused() {
    let mut sender = codec_of(counted_key(1), counted_key(2));
    let mut receiver = codec_of(counted_key(2), counted_key(1));
    let mut first = b"one".to_vec();
    sender.encrypt(&mut first).unwrap();
    let mut second = b"two".to_vec();
    sender.encrypt(&mut second).unwrap();
    let kept = second.clone();
    assert!(matches!(receiver.decrypt(&mut second), Err(Error::AeadFailure)));
    assert_eq!(second, kept);
    receiver.decrypt(&mut first).unwrap();
    assert_eq!(first, b"one".to_vec());
    receiver.decrypt(&mut second).unwrap();
    assert_eq!(second, b"two".to_vec());
    // a frame is opened once
    let mut again = kept.clone();
    assert!(matches!(receiver.decrypt(&mut again), Err(Error::AeadFailure)));
}

#[test]
fn an_erased_codec_refuses() {
    let mut codec = codec_of(counted_key(1), counted_key(2));
    codec.erase();
    let mut data = b"ciao".to_vec();
    assert!(matches!(codec.encrypt(&mut data), Err(Error::InvalidCipherState)));
    assert!(matches!(codec.decrypt(&mut data), Err(Error::InvalidCipherState)));
    assert_eq!(data, b"ciao".to_vec());
}

fn finished_pair() -> (NoiseCodec, NoiseCodec) {
    let key_pair = Responder::generate_key();
    let mut initiator = Initiator::new(key_pair.public_key());
    let mut responder = Responder::new(key_pair);
    let first_message = initiator.step_0().unwrap();
    let second_message = responder.step_1(first_message, VALIDITY).unwrap();
    initiator.step_2(second_message).unwrap();
    let (fourth_message, codec_responder) = responder.step_3(vec![0x00]).unwrap();
    let codec_initiator = initiator.step_4(fourth_message).unwrap();
    (codec_initiator, codec_responder)
}

#[test]
fn tamper() {
    let (mut codec_initiator, mut codec_responder) = finished_pair();
    let mut message = b"ciao".to_vec();
    codec_initiator.encrypt(&mut message).unwrap();
    let genuine = message.clone();
    message[0] ^= 1;
    assert!(matches!(codec_responder.decrypt(&mut message), Err(Error::AeadFailure)));
    // the counter did not move: the genuine frame still opens
    let mut retransmitted = genuine;
    codec_responder.decrypt(&mut retransmitted).unwrap();
    assert_eq!(retransmitted, b"ciao".to_vec());
}

#[test]
fn any_flipped_bit_of_a_transport_frame_is_noticed() {
    let (mut codec_initiator, mut codec_responder) = finished_pair();
    let mut message = b"ciao".to_vec();
    codec_initiator.encrypt(&mut message).unwrap();
    for position in 0..message.len() {
        for bit in 0..8 {
            let mut changed = message.clone();
            changed[position] ^= 1 << bit;
            assert!(matches!(codec_responder.decrypt(&mut changed), Err(Error::AeadFailure)));
        }
    }
    codec_responder.decrypt(&mut message).unwrap();
    assert_eq!(message, b"ciao".to_vec());
}

#[test]
fn the_two_directions_have_different_keys() {
    let (mut codec_initiator, mut codec_responder) = finished_pair();
    let mut out = b"ciao".to_vec();
    codec_initiator.encrypt(&mut out).unwrap();
    let mut back = b"ciao".to_vec();
    codec_responder.encrypt(&mut back).unwrap();
    assert_ne!(out, back);
    // what the initiator sent does not open as if the responder had sent it
    let mut reflected = out.clone();
    assert!(matches!(codec_initiator.decrypt(&mut reflected), Err(Error::AeadFailure)));
}

trait AmbiguousIfShared<A> {
    fn marker() {}
}

impl<T: ?Sized> AmbiguousIfShared<()> for T {}

impl<T: ?Sized + Sync> AmbiguousIfShared<u8> for T {}

fn handed_over<T: Send>() {}

#[test]
fn roles_and_codecs_have_one_owner() {
    // Each line compiles only while the type is not shared between threads.
    <Initiator as AmbiguousIfShared<_>>::marker();
    <Responder as AmbiguousIfShared<_>>::marker();
    <NoiseCodec as AmbiguousIfShared<_>>::marker();
    // They can still be handed from one thread to another.
    handed_over::<Initiator>();
    handed_over::<Responder>();
    handed_over::<NoiseCodec>();
}
