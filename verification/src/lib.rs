//! Noise NX handshake over secp256k1 with a negotiable transport cipher.
//!
//! The two roles of the handshake, [`Initiator`] and [`Responder`], exchange three
//! handshake messages and a cipher negotiation, and each ends with a [`NoiseCodec`]
//! that seals and opens transport frames.

use vstd::prelude::*;

pub mod aed_cipher;
pub mod bytes;
pub mod cipher_state;
pub mod codec;
pub mod curve;
pub mod error;
pub mod handshake;
pub mod hash;
pub mod initiator;
pub mod laws;
pub mod owner;
pub mod responder;
pub mod signature_message;

pub use aed_cipher::AeadCipher;
pub use codec::NoiseCodec;
pub use error::Error;
pub use initiator::Initiator;
pub use responder::Responder;

verus! {

/// The name of the protocol with ChaCha20-Poly1305, in ASCII:
/// `Noise_NX_secp256k1_ChaChaPoly_SHA256`.
pub const PROTOCOL_NAME_CHACHA: [u8; 36] = [
    78, 111, 105, 115, 101, 95, 78, 88, 95, 115, 101, 99, 112, 50, 53, 54, 107, 49, 95, 67, 104,
    97, 67, 104, 97, 80, 111, 108, 121, 95, 83, 72, 65, 50, 53, 54,
];

/// The name of the protocol with AES-256-GCM, in ASCII:
/// `Noise_NX_secp256k1_AES-GCM_SHA256`.
pub const PROTOCOL_NAME_AES: [u8; 33] = [
    78, 111, 105, 115, 101, 95, 78, 88, 95, 115, 101, 99, 112, 50, 53, 54, 107, 49, 95, 65, 69,
    83, 45, 71, 67, 77, 95, 83, 72, 65, 50, 53, 54,
];

/// An encrypted message is this many bytes longer than the clear message.
pub const CHACHA_POLY_TAG_SIZE: usize = 16;

/// An encrypted message is this many bytes longer than the clear message.
pub const AES_GMC_TAG_SIZE: usize = 16;

/// The SHA-256 digest of [`PROTOCOL_NAME_CHACHA`], which is longer than 32 bytes.
pub const HASHED_PROTOCOL_NAME_CHACHA: [u8; 32] = [
    168, 246, 65, 106, 218, 197, 235, 205, 62, 183, 118, 131, 234, 247, 6, 174, 180, 164, 162,
    125, 30, 121, 156, 182, 95, 117, 218, 138, 122, 135, 4, 65,
];

/// The SHA-256 digest of [`PROTOCOL_NAME_AES`], which is longer than 32 bytes.
pub const HASHED_PROTOCOL_NAME_AES: [u8; 32] = [
    98, 20, 128, 113, 111, 137, 141, 202, 194, 70, 69, 231, 226, 122, 220, 145, 249, 218, 130, 51,
    53, 203, 242, 0, 71, 117, 5, 73, 173, 157, 32, 55,
];

/// The code of AES-256-GCM in a cipher list and in a cipher choice.
pub const AESG: [u8; 4] = [0x47, 0x53, 0x45, 0x41];

/// The version of the certificate.
pub const VERSION: u16 = 0;

/// How long a certificate is valid unless the caller says otherwise: 52 weeks, in
/// seconds.
pub const VALIDITY: u32 = 31449600;

} // verus!
