//! The errors of the handshake and of the transport codec.

use vstd::prelude::*;

verus! {

/// Everything that can go wrong in a handshake or on a transport frame.
#[derive(Debug)]
pub enum Error {
    /// A step was called before the steps it depends on, or after the role was aborted.
    HandshakeNotFinalized,
    /// The responder received an empty cipher list.
    CipherListMustBeNonEmpty,
    /// A well-formed cipher list that offers nothing the responder supports.
    UnsupportedCiphers(Vec<u8>),
    /// A cipher list or a cipher choice that is not well-formed.
    InvalidCipherList(Vec<u8>),
    /// The responder chose a cipher that the initiator did not offer.
    InvalidCipherChosen(Vec<u8>),
    /// The AEAD cipher rejected a ciphertext or refused to encrypt.
    AeadFailure,
    /// The cipher state has no key, or its nonces are used up.
    InvalidCipherState,
    /// The certificate, carried here as received, was not signed by the expected key
    /// or its validity window is empty.
    InvalidCertificate([u8; 74]),
}

} // verus!
