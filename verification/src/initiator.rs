//! The initiator of the handshake: the side that knows the responder's static key
//! beforehand and checks the certificate against it.

use crate::aed_cipher::{AeadCipher, ChaCha20Poly1305};
use crate::bytes::{bytes_equal, to_array};
use crate::cipher_state::{nonce_for, Cipher, CipherView, GenericCipher};
use crate::codec::NoiseCodec;
use crate::curve::{
    public_key_is_valid, public_key_valid, shared_secret, wipe, zeros, KeyPair, Keys,
};
use crate::error::Error;
use crate::handshake::{mixed_hash, Symmetric, SymmetricState};
use crate::hash::hkdf_2;
use crate::owner::NotShared;
use crate::responder::{choice_of_aes, choice_of_chacha, pending_ready};
use crate::signature_message::{certificate_valid, SignatureNoiseMessage};
use crate::PROTOCOL_NAME_CHACHA;
use vstd::prelude::*;
use vstd::slice::{slice_subrange, slice_to_vec};

verus! {

/// The cipher list that an initiator sends: one entry, AES-256-GCM.
pub open spec fn offered_ciphers() -> Seq<u8> {
    seq![1u8, 0x47u8, 0x53u8, 0x45u8, 0x41u8]
}

/// The initiator's symmetric state once it has sent its ephemeral key.
pub open spec fn initiator_started(start: Symmetric, e_public: Seq<u8>) -> Symmetric {
    start.mix_hash(e_public).mix_hash(Seq::empty())
}

/// The initiator's symmetric state once it has taken in the responder's ephemeral key,
/// the first 32 bytes of the second handshake message, and mixed in the first shared
/// secret.
pub open spec fn initiator_keyed(started: Symmetric, e: Keys, message: Seq<u8>) -> Symmetric {
    started.mix_hash(message.subrange(0, 32)).mix_key(
        shared_secret(e.secret, message.subrange(0, 32)),
    )
}

/// The responder's static key as the second handshake message carries it, if that
/// part of the message opens.
pub open spec fn received_static(started: Symmetric, e: Keys, message: Seq<u8>) -> Option<Seq<u8>> {
    initiator_keyed(started, e, message).decrypted(message.subrange(32, 80))
}

/// The initiator's symmetric state once it has read the responder's static key and
/// mixed in the second shared secret.
pub open spec fn initiator_static_read(started: Symmetric, e: Keys, message: Seq<u8>) -> Symmetric {
    initiator_keyed(started, e, message).decrypt_and_hash(message.subrange(32, 80)).mix_key(
        shared_secret(e.secret, received_static(started, e, message).unwrap()),
    )
}

/// The certificate as the second handshake message carries it, if that part of the
/// message opens.
pub open spec fn received_certificate(started: Symmetric, e: Keys, message: Seq<u8>) -> Option<
    Seq<u8>,
> {
    initiator_static_read(started, e, message).decrypted(message.subrange(80, 170))
}

/// The initiator's symmetric state at the end of the handshake.
pub open spec fn initiator_finished(started: Symmetric, e: Keys, message: Seq<u8>) -> Symmetric {
    initiator_static_read(started, e, message).decrypt_and_hash(message.subrange(80, 170))
}

/// What holds of the encrypted parts of the second handshake message that open: each
/// is the sealing, under the state it is opened in, of what it opens to.
pub open spec fn opened_parts_were_sealed(started: Symmetric, e: Keys, message: Seq<u8>) -> bool {
    let keyed = initiator_keyed(started, e, message);
    let static_read = initiator_static_read(started, e, message);
    &&& received_static(started, e, message) matches Some(rs) ==> keyed.encrypted(rs)
        == message.subrange(32, 80)
    &&& received_static(started, e, message) is Some ==> (received_certificate(
        started,
        e,
        message,
    ) matches Some(certificate) ==> static_read.encrypted(certificate) == message.subrange(
        80,
        170,
    ))
}

/// Whether the keys that the second handshake message carries can be used: its first
/// 32 bytes are a public key, and so is the static key if that part opens.
pub open spec fn keys_usable(started: Symmetric, e: Keys, message: Seq<u8>) -> bool {
    &&& public_key_valid(message.subrange(0, 32))
    &&& received_static(started, e, message) matches Some(rs) ==> public_key_valid(rs)
}

/// What an initiator makes of the second handshake message.
pub enum Reading {
    /// The encrypted static key does not open.
    StaticKeyRejected,
    /// The encrypted certificate does not open.
    CertificateRejected,
    /// The static key is not the expected one, or the certificate is not valid under
    /// it.
    CertificateInvalid,
    /// The responder is the expected one.
    Accepted,
}

/// What an initiator that expects the static key `expected` makes of the second
/// handshake message.
pub open spec fn reading(
    started: Symmetric,
    e: Keys,
    expected: Seq<u8>,
    message: Seq<u8>,
) -> Reading {
    if received_static(started, e, message) is None {
        Reading::StaticKeyRejected
    } else if received_certificate(started, e, message) is None {
        Reading::CertificateRejected
    } else if received_static(started, e, message).unwrap() != expected || !certificate_valid(
        received_static(started, e, message).unwrap(),
        received_certificate(started, e, message).unwrap(),
    ) {
        Reading::CertificateInvalid
    } else {
        Reading::Accepted
    }
}

/// What an initiator makes of a cipher choice: `Some(false)` where the transport stays
/// on ChaCha20-Poly1305, `Some(true)` where it moves to AES-256-GCM, nothing where the
/// choice is neither.
pub open spec fn chosen(cipher_choice: Seq<u8>) -> Option<bool> {
    if cipher_choice == choice_of_chacha() {
        Some(false)
    } else if cipher_choice == choice_of_aes() {
        Some(true)
    } else {
        None
    }
}

/// Where an initiator stands in the handshake.
#[derive(Clone, Copy, PartialEq, Eq, Structural, Debug)]
pub enum InitiatorPhase {
    /// Nothing has been sent.
    Fresh,
    /// The ephemeral key is out; waiting for the second handshake message.
    SentE,
    /// The certificate was accepted and the cipher list is out; waiting for the
    /// cipher choice.
    VerifiedCert,
    /// A step failed or came out of order, or the role was erased. Every further step
    /// fails.
    Aborted,
}

/// The initiator of one handshake.
///
/// The steps come in one order: `step_0`, `step_2`, then `step_4`, which consumes the
/// initiator and overwrites its secrets. Whoever abandons an initiator before that
/// calls `erase`.
pub struct Initiator {
    state: SymmetricState,
    e: KeyPair,
    pk: [u8; 32],
    c1: Option<GenericCipher>,
    c2: Option<GenericCipher>,
    phase: InitiatorPhase,
    not_shared: NotShared,
}

impl Initiator {
    /// Where the initiator stands.
    pub closed spec fn phase(&self) -> InitiatorPhase {
        self.phase
    }

    /// The symmetric state.
    pub closed spec fn symmetric(&self) -> Symmetric {
        self.state@
    }

    /// The ephemeral key pair.
    pub closed spec fn e(&self) -> Keys {
        self.e@
    }

    /// The static public key that the responder is expected to prove.
    pub closed spec fn expected(&self) -> Seq<u8> {
        self.pk@
    }

    /// The keys of the two pending transport cipher states: the first for the traffic
    /// from initiator to responder, the second for the other direction.
    pub closed spec fn pending(&self) -> Option<(Seq<u8>, Seq<u8>)> {
        match (self.c1, self.c2) {
            (Some(c1), Some(c2)) => match (c1@.key, c2@.key) {
                (Some(k1), Some(k2)) => Some((k1, k2)),
                _ => None,
            },
            _ => None,
        }
    }

    /// What the steps keep: until the second handshake message is read the initiator
    /// has its key pair, and while waiting for the cipher choice it has both pending
    /// cipher states.
    pub closed spec fn wf(&self) -> bool {
        match self.phase {
            InitiatorPhase::Fresh => !self.e.erased() && self.state@.k is None,
            InitiatorPhase::SentE => !self.e.erased(),
            InitiatorPhase::VerifiedCert => pending_ready(self.c1) && pending_ready(self.c2),
            InitiatorPhase::Aborted => true,
        }
    }

    /// A fresh key pair from the thread's random number generator.
    pub fn generate_key() -> (pair: KeyPair)
        ensures
            !pair.erased(),
            pair.well_formed(),
    {
        KeyPair::generate()
    }

    /// An initiator that expects the responder's static public key to be `pk`, with a
    /// fresh ephemeral key pair, at the start of a handshake.
    pub fn new(pk: [u8; 32]) -> (initiator: Box<Self>)
        ensures
            initiator.wf(),
            initiator.e().usable(),
            initiator.expected() == pk@,
            initiator.symmetric() == Symmetric::initial(PROTOCOL_NAME_CHACHA@),
            initiator.pending() is None,
            initiator.phase() is Fresh,
    {
        Box::new(
            Initiator {
                state: SymmetricState::initialize(PROTOCOL_NAME_CHACHA.as_slice()),
                e: KeyPair::generate(),
                pk,
                c1: None,
                c2: None,
                phase: InitiatorPhase::Fresh,
                not_shared: core::marker::PhantomData,
            },
        )
    }

    /// The transcript hash.
    pub fn get_h(&self) -> (h: [u8; 32])
        ensures
            h@ == self.symmetric().h,
    {
        self.state.get_h()
    }

    /// The chaining key.
    pub fn get_ck(&self) -> (ck: [u8; 32])
        ensures
            ck@ == self.symmetric().ck,
    {
        self.state.get_ck()
    }

    /// Whether the initiator is aborted.
    pub fn is_aborted(&self) -> (aborted: bool)
        ensures
            aborted == (self.phase() is Aborted),
    {
        self.phase == InitiatorPhase::Aborted
    }

    /// Whether the initiator is aborted and holds no secret any more: the symmetric
    /// state and the ephemeral key pair are zeros, and there are no pending cipher
    /// states.
    pub open spec fn erased(&self) -> bool {
        &&& self.phase() is Aborted
        &&& self.symmetric().ck == zeros(32)
        &&& self.symmetric().h == zeros(32)
        &&& self.symmetric().k is None
        &&& self.pending() is None
        &&& self.e() == (Keys { secret: zeros(32), public: zeros(32) })
    }

    /// Overwrites the symmetric state, both pending cipher keys and the ephemeral key
    /// pair with zeros. The initiator is aborted afterwards.
    pub fn erase(&mut self)
        ensures
            final(self).wf(),
            final(self).erased(),
            final(self).expected() == old(self).expected(),
    {
        self.phase = InitiatorPhase::Aborted;
        self.state.erase();
        match &mut self.c1 {
            Some(c) => c.erase(),
            None => {},
        }
        self.c1 = None;
        match &mut self.c2 {
            Some(c) => c.erase(),
            None => {},
        }
        self.c2 = None;
        self.e.erase();
    }

    /// Makes the first handshake message: the initiator's ephemeral public key, which
    /// the transcript hash takes in.
    ///
    /// Out of order the step fails with `HandshakeNotFinalized` and aborts the
    /// initiator.
    pub fn step_0(&mut self) -> (result: Result<[u8; 32], Error>)
        requires
            old(self).wf(),
        ensures
            final(self).wf(),
            final(self).expected() == old(self).expected(),
            match result {
                Ok(message) => {
                    &&& old(self).phase() is Fresh
                    &&& message@ == old(self).e().public
                    &&& final(self).symmetric() == initiator_started(
                        old(self).symmetric(),
                        old(self).e().public,
                    )
                    &&& final(self).e() == old(self).e()
                    &&& final(self).phase() is SentE
                },
                Err(error) => {
                    &&& !(old(self).phase() is Fresh)
                    &&& error is HandshakeNotFinalized
                    &&& final(self).erased()
                },
            },
    {
        if self.phase != InitiatorPhase::Fresh {
            self.erase();
            return Err(Error::HandshakeNotFinalized);
        }
        let message = self.e.public_key();
        self.state.mix_hash(message.as_slice());
        let mut nothing: Vec<u8> = Vec::new();
        match self.state.encrypt_and_hash(&mut nothing) {
            Ok(()) => {},
            Err(error) => {
                self.erase();
                return Err(error);
            },
        }
        self.phase = InitiatorPhase::SentE;
        Ok(message)
    }

    /// What `step_2` does on the second handshake message, from `self` to `after`.
    ///
    /// Out of order it fails with `HandshakeNotFinalized`. Where the encrypted static
    /// key or the encrypted certificate does not open it fails with `AeadFailure`.
    /// Where the static key is not the expected one, or the certificate is not valid
    /// under it, it fails with `InvalidCertificate` and the certificate as received.
    /// Every failure aborts the initiator. Else it succeeds with the cipher list to
    /// send, and the two transport keys are derived and kept for `step_4`.
    pub open spec fn step_2_post(
        &self,
        after: &Initiator,
        message: Seq<u8>,
        result: Result<[u8; 5], Error>,
    ) -> bool {
        &&& after.expected() == self.expected()
        &&& result is Err ==> after.erased()
        &&& self.phase() is SentE ==> opened_parts_were_sealed(self.symmetric(), self.e(), message)
        &&& if !(self.phase() is SentE) {
            result matches Err(error) && error is HandshakeNotFinalized
        } else {
            match reading(self.symmetric(), self.e(), self.expected(), message) {
                Reading::StaticKeyRejected | Reading::CertificateRejected => {
                    result matches Err(error) && error is AeadFailure
                },
                Reading::CertificateInvalid => {
                    result matches Err(Error::InvalidCertificate(certificate)) && Some(
                        certificate@,
                    ) == received_certificate(self.symmetric(), self.e(), message)
                },
                Reading::Accepted => {
                    &&& result matches Ok(ciphers)
                    &&& ciphers@ == offered_ciphers()
                    &&& after.symmetric() == initiator_finished(
                        self.symmetric(),
                        self.e(),
                        message,
                    )
                    &&& after.pending() == Some(after.symmetric().split())
                    &&& after.phase() is VerifiedCert
                },
            }
        }
    }

    /// Takes in the second handshake message: the responder's ephemeral key, its
    /// encrypted static key and its encrypted certificate. Checks that the static key
    /// is the expected one and that the certificate is valid under it, and gives the
    /// cipher list to send.
    ///
    /// The keys in the message have to be public keys; `checked_step_2` takes any
    /// message.
    pub fn step_2(&mut self, message: [u8; 170]) -> (result: Result<[u8; 5], Error>)
        requires
            old(self).wf(),
            old(self).phase() is SentE ==> keys_usable(
                old(self).symmetric(),
                old(self).e(),
                message@,
            ),
        ensures
            final(self).wf(),
            old(self).step_2_post(final(self), message@, result),
    {
        if self.phase != InitiatorPhase::SentE {
            self.erase();
            return Err(Error::HandshakeNotFinalized);
        }
        let re_pub: [u8; 32] = to_array(slice_subrange(message.as_slice(), 0, 32));
        self.state.mix_hash(re_pub.as_slice());
        let mut ee = self.e.ecdh(&re_pub).unwrap();
        self.state.mix_key(ee.as_slice());
        wipe(&mut ee);

        let mut static_part = slice_to_vec(slice_subrange(message.as_slice(), 32, 80));
        match self.state.decrypt_and_hash(&mut static_part) {
            Ok(()) => {},
            Err(error) => {
                self.erase();
                return Err(error);
            },
        }
        let rs_pub: [u8; 32] = to_array(static_part.as_slice());
        let mut es = self.e.ecdh(&rs_pub).unwrap();
        self.state.mix_key(es.as_slice());
        wipe(&mut es);

        let mut certificate_part = slice_to_vec(slice_subrange(message.as_slice(), 80, 170));
        match self.state.decrypt_and_hash(&mut certificate_part) {
            Ok(()) => {},
            Err(error) => {
                self.erase();
                return Err(error);
            },
        }
        let plaintext: [u8; 74] = to_array(certificate_part.as_slice());
        let certificate = SignatureNoiseMessage::from_bytes(plaintext);
        if bytes_equal(rs_pub.as_slice(), self.pk.as_slice()) && certificate.verify(&rs_pub) {
            let mut keys = self.state.split();
            self.c1 = Some(GenericCipher::ChaCha20Poly1305(Cipher::from_key(keys.0)));
            self.c2 = Some(GenericCipher::ChaCha20Poly1305(Cipher::from_key(keys.1)));
            wipe(&mut keys.0);
            wipe(&mut keys.1);
            self.phase = InitiatorPhase::VerifiedCert;
            let ciphers: [u8; 5] = [1, 0x47, 0x53, 0x45, 0x41];
            Ok(ciphers)
        } else {
            self.erase();
            Err(Error::InvalidCertificate(plaintext))
        }
    }

    /// The responder's static key as `message` carries it, if that part of the message
    /// opens. Nothing of the initiator changes.
    fn peek_static(&self, re_pub: &[u8; 32], message: &[u8; 170]) -> (rs_pub: Option<[u8; 32]>)
        requires
            !self.e.erased(),
            re_pub@ == message@.subrange(0, 32),
            public_key_valid(re_pub@),
        ensures
            match rs_pub {
                Some(key) => Some(key@) == received_static(self.symmetric(), self.e(), message@),
                None => received_static(self.symmetric(), self.e(), message@) is None,
            },
    {
        let h = mixed_hash(&self.state.get_h(), re_pub.as_slice());
        let mut ee = self.e.ecdh(re_pub).unwrap();
        let mut derived = hkdf_2(&self.state.get_ck(), ee.as_slice());
        wipe(&mut ee);
        let mut cipher = ChaCha20Poly1305::from_key(derived.1);
        wipe(&mut derived.0);
        wipe(&mut derived.1);
        let mut static_part = slice_to_vec(slice_subrange(message.as_slice(), 32, 80));
        let opened = cipher.decrypt(&nonce_for(0), h.as_slice(), &mut static_part);
        cipher.erase();
        match opened {
            Ok(()) => Some(to_array(static_part.as_slice())),
            Err(_) => None,
        }
    }

    /// `step_2`, for a second handshake message whose keys may not be public keys: such
    /// a message is refused with `None`, and the initiator stays as it was.
    pub fn checked_step_2(&mut self, message: [u8; 170]) -> (result: Option<Result<[u8; 5], Error>>)
        requires
            old(self).wf(),
        ensures
            final(self).wf(),
            result is Some <==> (old(self).phase() is SentE ==> keys_usable(
                old(self).symmetric(),
                old(self).e(),
                message@,
            )),
            result is None ==> *final(self) == *old(self),
            result matches Some(r) ==> old(self).step_2_post(final(self), message@, r),
    {
        if self.phase == InitiatorPhase::SentE {
            let re_pub: [u8; 32] = to_array(slice_subrange(message.as_slice(), 0, 32));
            if !public_key_is_valid(&re_pub) {
                return None;
            }
            match self.peek_static(&re_pub, &message) {
                Some(rs_pub) => {
                    if !public_key_is_valid(&rs_pub) {
                        return None;
                    }
                },
                None => {},
            }
        }
        Some(self.step_2(message))
    }

    /// What `step_4` does on a cipher choice.
    ///
    /// Before `step_2` has succeeded, or on an aborted initiator, it fails with
    /// `HandshakeNotFinalized`; on a choice that is neither of the two it fails with
    /// `InvalidCipherList` and the choice as received. Else it gives the transport
    /// codec, which encrypts under the first transport key and decrypts under the
    /// second, both counters at zero.
    pub open spec fn step_4_post(
        &self,
        cipher_choice: Seq<u8>,
        result: Result<NoiseCodec, Error>,
    ) -> bool {
        if !(self.phase() is VerifiedCert) {
            result matches Err(error) && error is HandshakeNotFinalized
        } else {
            match chosen(cipher_choice) {
                None => {
                    result matches Err(Error::InvalidCipherList(choice)) && choice@
                        == cipher_choice
                },
                Some(aes) => {
                    &&& result matches Ok(codec)
                    &&& codec.encryptor() == (CipherView {
                        aes,
                        key: Some(self.pending().unwrap().0),
                        n: 0,
                    })
                    &&& codec.decryptor() == (CipherView {
                        aes,
                        key: Some(self.pending().unwrap().1),
                        n: 0,
                    })
                },
            }
        }
    }

    /// Takes in the responder's cipher choice and ends the handshake with the
    /// transport codec. The initiator's secrets are overwritten in every case.
    pub fn step_4(self, cipher_chosed: Vec<u8>) -> (result: Result<NoiseCodec, Error>)
        requires
            self.wf(),
        ensures
            self.step_4_post(cipher_chosed@, result),
    {
        let mut this = self;
        if this.phase != InitiatorPhase::VerifiedCert {
            this.erase();
            return Err(Error::HandshakeNotFinalized);
        }
        let mut encryptor = this.c1.take().unwrap();
        let mut decryptor = this.c2.take().unwrap();
        this.erase();
        let none: [u8; 1] = [0];
        let aes: [u8; 5] = [1, 0x47, 0x53, 0x45, 0x41];
        assert(none@ =~= choice_of_chacha());
        if bytes_equal(cipher_chosed.as_slice(), none.as_slice()) {
            encryptor.erase_k();
            decryptor.erase_k();
            Ok(NoiseCodec::new(encryptor, decryptor))
        } else if bytes_equal(cipher_chosed.as_slice(), aes.as_slice()) {
            let mut encryptor = encryptor.into_aesg().unwrap();
            let mut decryptor = decryptor.into_aesg().unwrap();
            encryptor.erase_k();
            decryptor.erase_k();
            Ok(NoiseCodec::new(encryptor, decryptor))
        } else {
            encryptor.erase();
            decryptor.erase();
            Err(Error::InvalidCipherList(cipher_chosed))
        }
    }
}

} // verus!
