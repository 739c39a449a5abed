use noise_sv2::curve::{public_key_is_valid, signature_is_valid, KeyPair};
use noise_sv2::handshake::{mixed_hash, SymmetricState};
use noise_sv2::hash::{hkdf_2, hkdf_3, hmac_hash};
use noise_sv2::{
    HASHED_PROTOCOL_NAME_AES, HASHED_PROTOCOL_NAME_CHACHA, PROTOCOL_NAME_AES, PROTOCOL_NAME_CHACHA,
};

fn counted_key() -> [u8; 32] {
    let mut key = [0u8; 32];
    for i in 0..32 {
        key[i] = i as u8;
    }
    key
}

fn hex(text: &str) -> Vec<u8> {
    let digits: Vec<u8> = text.bytes().filter(|b| !b.is_ascii_whitespace()).collect();
    digits
        .chunks(2)
        .map(|pair| {
            let high = (pair[0] as char).to_digit(16).unwrap() as u8;
            let low = (pair[1] as char).to_digit(16).unwrap() as u8;
            high * 16 + low
        })
        .collect()
}

fn hex32(text: &str) -> [u8; 32] {
    let bytes = hex(text);
    let mut array = [0u8; 32];
    array.copy_from_slice(&bytes);
    array
}

#[test]
fn protocol_names_are_spelled_in_ascii() {
    assert_eq!(&PROTOCOL_NAME_CHACHA[..], "Noise_NX_secp256k1_ChaChaPoly_SHA256".as_bytes());
    assert_eq!(&PROTOCOL_NAME_AES[..], "Noise_NX_secp256k1_AES-GCM_SHA256".as_bytes());
}

#[test]
fn tabulated_hashes_match_the_initialization_rule() {
    let chacha = SymmetricState::initialize(&PROTOCOL_NAME_CHACHA);
    assert_eq!(chacha.get_h(), HASHED_PROTOCOL_NAME_CHACHA);
    assert_eq!(chacha.get_ck(), HASHED_PROTOCOL_NAME_CHACHA);
    assert_eq!(chacha.get_n(), 0);
    assert!(!chacha.has_key());
    let aes = SymmetricState::initialize(&PROTOCOL_NAME_AES);
    assert_eq!(aes.get_h(), HASHED_PROTOCOL_NAME_AES);
    assert_eq!(aes.get_ck(), HASHED_PROTOCOL_NAME_AES);
    assert_eq!(
        HASHED_PROTOCOL_NAME_CHACHA.to_vec(),
        hex("a8f6416adac5ebcd3eb77683eaf706aeb4a4a27d1e799cb65f75da8a7a870441")
    );
    assert_eq!(
        HASHED_PROTOCOL_NAME_AES.to_vec(),
        hex("621480716f898dcac24645e7e27adc91f9da823335cbf20047750549ad9d2037")
    );
}

#[test]
fn a_short_protocol_name_is_padded_with_zeros() {
    let state = SymmetricState::initialize(b"abc");
    let mut expected = [0u8; 32];
    expected[0] = b'a';
    expected[1] = b'b';
    expected[2] = b'c';
    assert_eq!(state.get_h(), expected);
    assert_eq!(state.get_ck(), expected);
}

#[test]
fn a_protocol_name_of_32_bytes_is_taken_as_it_is() {
    let name = counted_key();
    let state = SymmetricState::initialize(&name);
    assert_eq!(state.get_h(), name);
}

#[test]
fn a_protocol_name_of_33_bytes_is_hashed() {
    let name = [0u8; 33];
    let state = SymmetricState::initialize(&name);
    // SHA-256 of 33 zero bytes
    assert_ne!(state.get_h(), [0u8; 32]);
    assert_eq!(state.get_h(), mixed_hash(&[0u8; 32], &[0u8]));
}

#[test]
fn an_empty_protocol_name_gives_zeros() {
    let state = SymmetricState::initialize(b"");
    assert_eq!(state.get_h(), [0u8; 32]);
}

#[test]
fn mix_hash_is_the_digest_of_hash_and_data() {
    let mixed = mixed_hash(&HASHED_PROTOCOL_NAME_CHACHA, b"data");
    assert_eq!(
        mixed,
        [
            163, 218, 243, 234, 39, 106, 30, 39, 105, 121, 204, 73, 215, 109, 78, 130, 82, 210,
            210, 38, 23, 40, 20, 237, 32, 187, 77, 138, 218, 128, 232, 175
        ]
    );
    let mut state = SymmetricState::initialize(&PROTOCOL_NAME_CHACHA);
    state.mix_hash(b"data");
    assert_eq!(state.get_h(), mixed);
    assert_eq!(state.get_ck(), HASHED_PROTOCOL_NAME_CHACHA);
    // SHA-256 of 32 zero bytes
    assert_eq!(
        mixed_hash(&[0u8; 32], b""),
        [
            102, 104, 122, 173, 248, 98, 189, 119, 108, 143, 193, 139, 142, 159, 142, 32, 8, 151,
            20, 133, 110, 226, 51, 179, 144, 42, 89, 29, 13, 95, 41, 37
        ]
    );
}

#[test]
fn hmac_of_a_short_message() {
    assert_eq!(
        hmac_hash(&counted_key(), b"abc"),
        [
            240, 19, 55, 41, 196, 22, 61, 237, 232, 30, 33, 205, 71, 131, 146, 86, 218, 88, 23, 18,
            56, 200, 160, 216, 116, 57, 124, 115, 177, 78, 30, 71
        ]
    );
}

#[test]
fn hmac_of_nothing() {
    assert_eq!(
        hmac_hash(&counted_key(), b""),
        [
            211, 139, 66, 9, 109, 128, 244, 95, 130, 107, 68, 169, 213, 96, 125, 231, 36, 150, 164,
            21, 211, 244, 161, 168, 200, 142, 59, 185, 218, 141, 193, 203
        ]
    );
}

#[test]
fn hkdf_with_two_and_three_outputs() {
    let first = [
        120, 93, 186, 54, 207, 241, 252, 245, 145, 248, 18, 250, 11, 43, 173, 232, 7, 175, 158, 80,
        210, 169, 108, 175, 40, 211, 201, 162, 133, 85, 133, 73,
    ];
    let second = [
        139, 78, 5, 236, 21, 63, 3, 207, 144, 108, 48, 91, 152, 25, 2, 226, 175, 38, 174, 41, 102,
        57, 123, 180, 57, 136, 196, 171, 40, 243, 170, 225,
    ];
    let third = [
        53, 239, 253, 14, 48, 228, 72, 102, 249, 8, 84, 244, 142, 232, 10, 227, 36, 216, 86, 195,
        238, 157, 221, 224, 232, 115, 101, 172, 244, 174, 238, 237,
    ];
    assert_eq!(hkdf_2(&counted_key(), b"input key material"), (first, second));
    assert_eq!(hkdf_3(&counted_key(), b"input key material"), (first, second, third));
}

#[test]
fn hkdf_without_input() {
    let (first, second) = hkdf_2(&counted_key(), b"");
    assert_eq!(
        first,
        [
            29, 126, 13, 111, 29, 157, 162, 214, 141, 171, 237, 83, 181, 248, 131, 69, 243, 253, 1,
            203, 117, 65, 31, 190, 90, 164, 41, 59, 216, 244, 48, 214
        ]
    );
    assert_eq!(
        second,
        [
            62, 217, 184, 3, 91, 191, 55, 11, 140, 254, 247, 255, 21, 0, 125, 228, 84, 136, 225,
            134, 96, 200, 78, 61, 153, 110, 142, 108, 101, 143, 167, 248
        ]
    );
    let state = SymmetricState::initialize(&counted_key());
    assert_eq!(state.split(), (first, second));
}

#[test]
fn mix_key_moves_the_chaining_key_and_sets_a_payload_key() {
    let mut state = SymmetricState::initialize(&counted_key());
    state.mix_key(b"input key material");
    assert_eq!(
        state.get_ck(),
        [
            120, 93, 186, 54, 207, 241, 252, 245, 145, 248, 18, 250, 11, 43, 173, 232, 7, 175, 158,
            80, 210, 169, 108, 175, 40, 211, 201, 162, 133, 85, 133, 73
        ]
    );
    assert_eq!(state.get_h(), counted_key());
    assert!(state.has_key());
    assert_eq!(state.get_n(), 0);
}

#[test]
fn the_public_key_of_a_known_secret() {
    let mut one = [0u8; 32];
    one[31] = 1;
    let generator = KeyPair::from_secret_bytes(one).unwrap();
    assert_eq!(
        generator.public_key(),
        hex32("79be667ef9dcbbac55a06295ce870b07029bfcdb2dce28d959f2815b16f81798")
    );
    assert_eq!(generator.secret_bytes(), one);
    let ones = KeyPair::from_secret_bytes([1u8; 32]).unwrap();
    assert_eq!(
        ones.public_key(),
        hex32("1b84c5567b126440995d3ed5aaba0565d71e1834604819ff9c17f5e9d5dd078f")
    );
}

#[test]
fn bytes_that_are_no_secret_key() {
    assert!(KeyPair::from_secret_bytes([0u8; 32]).is_none());
    // the order of the curve and everything above it
    assert!(KeyPair::from_secret_bytes(hex32(
        "fffffffffffffffffffffffffffffffebaaedce6af48a03bbfd25e8cd0364141"
    ))
    .is_none());
    assert!(KeyPair::from_secret_bytes([0xff; 32]).is_none());
    assert!(KeyPair::from_secret_bytes(hex32(
        "fffffffffffffffffffffffffffffffebaaedce6af48a03bbfd25e8cd0364140"
    ))
    .is_some());
}

#[test]
fn bytes_that_are_no_public_key() {
    let mut five = [0u8; 32];
    five[31] = 5;
    assert!(!public_key_is_valid(&five));
    assert!(!public_key_is_valid(&[0u8; 32]));
    assert!(!public_key_is_valid(&[0xff; 32]));
    assert!(public_key_is_valid(&hex32(
        "79be667ef9dcbbac55a06295ce870b07029bfcdb2dce28d959f2815b16f81798"
    )));
    assert!(public_key_is_valid(&KeyPair::generate().public_key()));
}

#[test]
fn generated_key_pairs_differ_and_are_keys() {
    let a = KeyPair::generate();
    let b = KeyPair::generate();
    assert_ne!(a.secret_bytes(), b.secret_bytes());
    assert_ne!(a.public_key(), b.public_key());
    assert!(!a.is_erased());
    let again = KeyPair::from_secret_bytes(a.secret_bytes()).unwrap();
    assert_eq!(again.public_key(), a.public_key());
}

#[test]
fn the_exchange_with_the_secret_one_gives_the_peers_own_coordinate() {
    let mut one = [0u8; 32];
    one[31] = 1;
    let generator = KeyPair::from_secret_bytes(one).unwrap();
    let peer = KeyPair::generate();
    assert_eq!(generator.ecdh(&peer.public_key()), Some(peer.public_key()));
    assert_eq!(peer.ecdh(&generator.public_key()), Some(peer.public_key()));
}

#[test]
fn both_sides_of_an_exchange_agree() {
    for _ in 0..8 {
        let a = KeyPair::generate();
        let b = KeyPair::generate();
        let ab = a.ecdh(&b.public_key()).unwrap();
        let ba = b.ecdh(&a.public_key()).unwrap();
        assert_eq!(ab, ba);
        assert_ne!(ab, a.public_key());
        assert_ne!(ab, b.public_key());
    }
}

#[test]
fn no_exchange_with_bytes_that_are_no_key() {
    let a = KeyPair::generate();
    let mut five = [0u8; 32];
    five[31] = 5;
    assert_eq!(a.ecdh(&five), None);
}

#[test]
fn a_signature_verifies_under_its_key_only() {
    let signer = KeyPair::generate();
    let other = KeyPair::generate();
    let digest = mixed_hash(&[0u8; 32], b"message");
    let signature = signer.sign(&digest).unwrap();
    assert!(signature_is_valid(&signature, &digest, &signer.public_key()));
    assert!(!signature_is_valid(&signature, &digest, &other.public_key()));
    let other_digest = mixed_hash(&[0u8; 32], b"another message");
    assert!(!signature_is_valid(&signature, &other_digest, &signer.public_key()));
    let mut changed = signature;
    changed[10] ^= 4;
    assert!(!signature_is_valid(&changed, &digest, &signer.public_key()));
    assert!(!signature_is_valid(&[0u8; 64], &digest, &signer.public_key()));
    let mut five = [0u8; 32];
    five[31] = 5;
    assert!(!signature_is_valid(&signature, &digest, &five));
}

#[test]
fn an_erased_key_pair_holds_zeros_and_does_nothing() {
    let mut pair = KeyPair::generate();
    let peer = KeyPair::generate().public_key();
    pair.erase();
    assert!(pair.is_erased());
    assert_eq!(pair.secret_bytes(), [0u8; 32]);
    assert_eq!(pair.public_key(), [0u8; 32]);
    assert_eq!(pair.ecdh(&peer), None);
    assert_eq!(pair.sign(&[7u8; 32]), None);
}
