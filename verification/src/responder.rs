//! The responder of the handshake: the side that owns a static key and proves it with
//! a certificate.

use crate::aed_cipher::ChaCha20Poly1305;
use crate::bytes::{bytes_equal, copy_into};
use crate::cipher_state::{Cipher, CipherView, GenericCipher};
use crate::codec::NoiseCodec;
use crate::curve::{
    exchange_agrees, public_key_is_valid, public_key_valid, shared_secret, wipe, zeros, KeyPair,
    Keys,
};
use crate::error::Error;
use crate::handshake::{Symmetric, SymmetricState};
use crate::owner::NotShared;
use crate::signature_message::{
    certificate_valid, le16, le32, lemma_header_spells_window, SignatureNoiseMessage,
};
use crate::{AESG, PROTOCOL_NAME_CHACHA, VERSION};
use vstd::prelude::*;
use vstd::slice::slice_to_vec;

verus! {

/// Whether a cipher list has the form of a list with at least one entry: a count, then
/// that many codes of four bytes.
pub open spec fn lists_ciphers(list: Seq<u8>) -> bool {
    list.len() >= 5 && list[0] * 4 + 1 == list.len()
}

/// The code at the place `i` of a cipher list.
pub open spec fn cipher_code(list: Seq<u8>, i: int) -> Seq<u8> {
    list.subrange(1 + 4 * i, 5 + 4 * i)
}

/// Whether a cipher list with at least one entry offers AES-256-GCM.
pub open spec fn offers_aes(list: Seq<u8>) -> bool {
    exists|i: int| 0 <= i < list[0] && #[trigger] cipher_code(list, i) == AESG@
}

/// The cipher choice that leaves the transport on ChaCha20-Poly1305.
pub open spec fn choice_of_chacha() -> Seq<u8> {
    seq![0u8]
}

/// The cipher choice that moves the transport to AES-256-GCM.
pub open spec fn choice_of_aes() -> Seq<u8> {
    seq![1u8, 0x47u8, 0x53u8, 0x45u8, 0x41u8]
}

/// The responder's symmetric state once it has taken in the initiator's ephemeral key
/// `re_pub`, sent its own, and mixed in the first shared secret.
pub open spec fn responder_keyed(start: Symmetric, e: Keys, re_pub: Seq<u8>) -> Symmetric {
    start.mix_hash(re_pub).mix_hash(Seq::empty()).mix_hash(e.public).mix_key(
        shared_secret(e.secret, re_pub),
    )
}

/// The responder's symmetric state once it has also sent its static key and mixed in
/// the second shared secret.
pub open spec fn responder_static_sent(
    start: Symmetric,
    e: Keys,
    s: Keys,
    re_pub: Seq<u8>,
) -> Symmetric {
    responder_keyed(start, e, re_pub).encrypt_and_hash(s.public).mix_key(
        shared_secret(s.secret, re_pub),
    )
}

/// The responder's symmetric state at the end of the handshake.
pub open spec fn responder_finished(
    start: Symmetric,
    e: Keys,
    s: Keys,
    re_pub: Seq<u8>,
    certificate: Seq<u8>,
) -> Symmetric {
    responder_static_sent(start, e, s, re_pub).encrypt_and_hash(certificate)
}

/// The second handshake message: the responder's ephemeral key, its encrypted static
/// key, and the encrypted certificate.
pub open spec fn reply_message(
    start: Symmetric,
    e: Keys,
    s: Keys,
    re_pub: Seq<u8>,
    certificate: Seq<u8>,
) -> Seq<u8> {
    e.public + responder_keyed(start, e, re_pub).encrypted(s.public) + responder_static_sent(
        start,
        e,
        s,
        re_pub,
    ).encrypted(certificate)
}

/// What holds of the two encrypted parts of the second handshake message: each is 16
/// bytes longer than its plaintext and opens again to it under the state it was
/// sealed in.
pub open spec fn reply_well_sealed(
    start: Symmetric,
    e: Keys,
    s: Keys,
    re_pub: Seq<u8>,
    certificate: Seq<u8>,
) -> bool {
    let keyed = responder_keyed(start, e, re_pub);
    let static_sent = responder_static_sent(start, e, s, re_pub);
    &&& keyed.encrypted(s.public).len() == s.public.len() + 16
    &&& keyed.decrypted(keyed.encrypted(s.public)) == Some(s.public)
    &&& static_sent.encrypted(certificate).len() == certificate.len() + 16
    &&& static_sent.decrypted(static_sent.encrypted(certificate)) == Some(certificate)
}

/// The first ten bytes of the certificate that a responder issues at the time
/// `valid_from` with a validity of `validity` seconds. The end of the window stops at
/// the largest time that 32 bits hold.
pub open spec fn issued_header(valid_from: u32, validity: u32) -> Seq<u8> {
    le16(VERSION) + le32(valid_from) + le32(
        if valid_from + validity > u32::MAX {
            u32::MAX
        } else {
            (valid_from + validity) as u32
        },
    )
}

/// What a responder makes of a cipher list.
pub enum Negotiated {
    /// The transport stays on ChaCha20-Poly1305.
    ChaCha,
    /// The transport moves to AES-256-GCM.
    Aes,
    /// The list is well-formed and offers nothing that the responder supports.
    Unsupported,
    /// The list is not well-formed.
    Invalid,
}

/// What a responder makes of a cipher list. A list of the one byte zero asks for
/// nothing, and the transport stays on ChaCha20-Poly1305. A list with a count and that
/// many codes moves the transport to AES-256-GCM if it offers it, and is unsupported if
/// it does not. Every other list is invalid.
pub open spec fn negotiated(cipher_list: Seq<u8>) -> Negotiated {
    if cipher_list.len() == 1 && cipher_list[0] == 0 {
        Negotiated::ChaCha
    } else if lists_ciphers(cipher_list) && offers_aes(cipher_list) {
        Negotiated::Aes
    } else if lists_ciphers(cipher_list) {
        Negotiated::Unsupported
    } else {
        Negotiated::Invalid
    }
}

/// Where a responder stands in the handshake.
#[derive(Clone, Copy, PartialEq, Eq, Structural, Debug)]
pub enum ResponderPhase {
    /// Waiting for the initiator's ephemeral key.
    AwaitE,
    /// The second message is out; waiting for the initiator's cipher list.
    AwaitCipherList,
    /// A step failed or came out of order, or the role was erased. Every further step
    /// fails.
    Aborted,
}

/// Calls `SystemTime::elapsed` of std on the Unix epoch: the time that has passed since
/// then, or nothing where the clock stands before it. Nothing is stated of the time.
#[verifier::external_body]
fn since_unix_epoch() -> (elapsed: Option<core::time::Duration>) {
    std::time::UNIX_EPOCH.elapsed().ok()
}

/// `Duration::as_secs` of std: the whole seconds of a duration. Nothing is stated of
/// them.
pub assume_specification[ core::time::Duration::as_secs ](duration: &core::time::Duration) -> u64;

/// The responder of one handshake.
///
/// The steps come in one order: `step_1`, then `step_3`, which consumes the responder
/// and overwrites its secrets. Whoever abandons a responder before that calls `erase`.
pub struct Responder {
    state: SymmetricState,
    e: KeyPair,
    s: KeyPair,
    c1: Option<GenericCipher>,
    c2: Option<GenericCipher>,
    phase: ResponderPhase,
    not_shared: NotShared,
}

/// Whether a pending transport cipher state is as the handshake made it: under
/// ChaCha20-Poly1305, with its key and a copy of it, and an unused counter.
pub open spec fn pending_ready(pending: Option<GenericCipher>) -> bool {
    pending matches Some(c) && !c@.aes && c@.key is Some && c.residual_key() == c@.key && c@.n
        == 0
}

impl Responder {
    /// Where the responder stands.
    pub closed spec fn phase(&self) -> ResponderPhase {
        self.phase
    }

    /// The symmetric state.
    pub closed spec fn symmetric(&self) -> Symmetric {
        self.state@
    }

    /// The ephemeral key pair.
    pub closed spec fn e(&self) -> Keys {
        self.e@
    }

    /// The static key pair.
    pub closed spec fn s(&self) -> Keys {
        self.s@
    }

    /// Whether the static key has been overwritten.
    pub closed spec fn s_erased(&self) -> bool {
        self.s.erased()
    }

    /// The keys of the two pending transport cipher states: the first for the traffic
    /// from initiator to responder, the second for the other direction.
    pub closed spec fn pending(&self) -> Option<(Seq<u8>, Seq<u8>)> {
        match (self.c1, self.c2) {
            (Some(c1), Some(c2)) => match (c1@.key, c2@.key) {
                (Some(k1), Some(k2)) => Some((k1, k2)),
                _ => None,
            },
            _ => None,
        }
    }

    /// What the steps keep: while waiting for the initiator's key the responder has its
    /// key pairs, and while waiting for the cipher list it has both pending cipher
    /// states.
    pub closed spec fn wf(&self) -> bool {
        match self.phase {
            ResponderPhase::AwaitE => !self.e.erased() && !self.s.erased() && self.state@.k is None,
            ResponderPhase::AwaitCipherList => pending_ready(self.c1) && pending_ready(self.c2),
            ResponderPhase::Aborted => true,
        }
    }

    /// A fresh key pair from the thread's random number generator.
    pub fn generate_key() -> (pair: KeyPair)
        ensures
            !pair.erased(),
            pair.well_formed(),
    {
        KeyPair::generate()
    }

    /// A responder with the static key pair `s` and a fresh ephemeral key pair, at the
    /// start of a handshake. With an erased `s` it is aborted from the start.
    pub fn new(s: KeyPair) -> (responder: Box<Self>)
        ensures
            responder.wf(),
            responder.e().usable(),
            responder.s() == s@,
            responder.s_erased() == s.erased(),
            responder.symmetric() == Symmetric::initial(PROTOCOL_NAME_CHACHA@),
            responder.pending() is None,
            responder.phase() == if s.erased() {
                ResponderPhase::Aborted
            } else {
                ResponderPhase::AwaitE
            },
    {
        let phase = if s.is_erased() {
            ResponderPhase::Aborted
        } else {
            ResponderPhase::AwaitE
        };
        Box::new(
            Responder {
                state: SymmetricState::initialize(PROTOCOL_NAME_CHACHA.as_slice()),
                e: KeyPair::generate(),
                s,
                c1: None,
                c2: None,
                phase,
                not_shared: core::marker::PhantomData,
            },
        )
    }

    /// The transcript hash.
    pub fn get_h(&self) -> (h: [u8; 32])
        ensures
            h@ == self.symmetric().h,
    {
        self.state.get_h()
    }

    /// The chaining key.
    pub fn get_ck(&self) -> (ck: [u8; 32])
        ensures
            ck@ == self.symmetric().ck,
    {
        self.state.get_ck()
    }

    /// Whether the responder is aborted.
    pub fn is_aborted(&self) -> (aborted: bool)
        ensures
            aborted == (self.phase() is Aborted),
    {
        self.phase == ResponderPhase::Aborted
    }

    /// Whether the responder is aborted and holds no secret any more: the symmetric
    /// state and both key pairs are zeros, and there are no pending cipher states.
    pub open spec fn erased(&self) -> bool {
        &&& self.phase() is Aborted
        &&& self.symmetric().ck == zeros(32)
        &&& self.symmetric().h == zeros(32)
        &&& self.symmetric().k is None
        &&& self.pending() is None
        &&& self.e() == (Keys { secret: zeros(32), public: zeros(32) })
        &&& self.s() == (Keys { secret: zeros(32), public: zeros(32) })
    }

    /// Overwrites the symmetric state, both pending cipher keys and both key pairs
    /// with zeros. The responder is aborted afterwards.
    pub fn erase(&mut self)
        ensures
            final(self).wf(),
            final(self).erased(),
    {
        self.phase = ResponderPhase::Aborted;
        self.state.erase();
        match &mut self.c1 {
            Some(c) => c.erase(),
            None => {},
        }
        self.c1 = None;
        match &mut self.c2 {
            Some(c) => c.erase(),
            None => {},
        }
        self.c2 = None;
        self.e.erase();
        self.s.erase();
    }

    /// The certificate of the static key: the version, the validity window, and over
    /// them the signature of the static key. Nothing is signed once the key is erased.
    pub fn get_signature(
        &self,
        version: u16,
        valid_from: u32,
        not_valid_after: u32,
    ) -> (certificate: [u8; 74])
        ensures
            certificate@.subrange(0, 10) == le16(version) + le32(valid_from) + le32(
                not_valid_after,
            ),
            !self.s_erased() && valid_from <= not_valid_after ==> certificate_valid(
                self.s().public,
                certificate@,
            ),
    {
        let unsigned = SignatureNoiseMessage {
            version,
            valid_from,
            not_valid_after,
            signature: [0u8; 64],
        };
        let mut certificate = unsigned.to_bytes();
        assert(certificate@.subrange(0, 10) =~= unsigned.header());
        let _signed = SignatureNoiseMessage::sign(&mut certificate, &self.s);
        proof {
            lemma_header_spells_window(certificate@, version, valid_from, not_valid_after);
        }
        certificate
    }

    /// What `step_1_with_certificate` does where it succeeds: from `self` to `after`,
    /// with `message` as the second handshake message.
    pub open spec fn replied(
        &self,
        after: &Responder,
        re_pub: Seq<u8>,
        certificate: Seq<u8>,
        message: Seq<u8>,
    ) -> bool {
        &&& self.e().usable()
        &&& self.s().usable()
        &&& exchange_agrees(self.e(), re_pub)
        &&& exchange_agrees(self.s(), re_pub)
        &&& message == reply_message(self.symmetric(), self.e(), self.s(), re_pub, certificate)
        &&& reply_well_sealed(self.symmetric(), self.e(), self.s(), re_pub, certificate)
        &&& after.symmetric() == responder_finished(
            self.symmetric(),
            self.e(),
            self.s(),
            re_pub,
            certificate,
        )
        &&& after.pending() == Some(after.symmetric().split())
        &&& after.phase() is AwaitCipherList
        &&& after.e() == self.e()
        &&& after.s() == self.s()
    }

    /// What `step_1` does, from `self` to `after`. In order, it succeeds, and the
    /// certificate in the message is one that the static key signed for a window that
    /// starts at some time and lasts `validity` seconds. Out of order it fails with
    /// `HandshakeNotFinalized` and the responder is aborted.
    pub open spec fn step_1_post(
        &self,
        after: &Responder,
        re_pub: Seq<u8>,
        validity: u32,
        result: Result<[u8; 170], Error>,
    ) -> bool {
        if self.phase() is AwaitE {
            &&& result is Ok
            &&& exists|certificate: Seq<u8>, valid_from: u32|
                {
                    &&& #[trigger] issued(certificate, valid_from, validity, self.s().public)
                    &&& self.replied(after, re_pub, certificate, result->Ok_0@)
                }
        } else {
            &&& result matches Err(error)
            &&& error is HandshakeNotFinalized
            &&& after.erased()
        }
    }

    /// Takes in the first handshake message, the initiator's ephemeral key `re_pub`,
    /// and makes the second: the responder's ephemeral key, its encrypted static key,
    /// and the encrypted `certificate`. The two transport keys are derived and kept
    /// for `step_3`.
    ///
    /// Out of order the step fails with `HandshakeNotFinalized` and aborts the
    /// responder. `re_pub` has to be a public key, which `public_key_is_valid` tells.
    pub fn step_1_with_certificate(&mut self, re_pub: [u8; 32], certificate: [u8; 74]) -> (result:
        Result<[u8; 170], Error>)
        requires
            old(self).wf(),
            public_key_valid(re_pub@),
        ensures
            final(self).wf(),
            match result {
                Ok(message) => old(self).phase() is AwaitE && old(self).replied(
                    final(self),
                    re_pub@,
                    certificate@,
                    message@,
                ),
                Err(error) => {
                    &&& !(old(self).phase() is AwaitE)
                    &&& error is HandshakeNotFinalized
                    &&& final(self).erased()
                },
            },
    {
        if self.phase != ResponderPhase::AwaitE {
            self.erase();
            return Err(Error::HandshakeNotFinalized);
        }
        let ghost start = self.state@;
        let ghost e = self.e@;
        let ghost s = self.s@;

        self.state.mix_hash(re_pub.as_slice());
        let mut nothing: Vec<u8> = Vec::new();
        match self.state.decrypt_and_hash(&mut nothing) {
            Ok(()) => {},
            Err(error) => {
                self.erase();
                return Err(error);
            },
        }

        let mut out = [0u8; 170];
        let e_public = self.e.public_key();
        copy_into(&mut out, 0, e_public.as_slice());
        self.state.mix_hash(e_public.as_slice());

        let mut ee = self.e.ecdh(&re_pub).unwrap();
        self.state.mix_key(ee.as_slice());
        wipe(&mut ee);

        let s_public = self.s.public_key();
        let mut static_part = slice_to_vec(s_public.as_slice());
        match self.state.encrypt_and_hash(&mut static_part) {
            Ok(()) => {},
            Err(error) => {
                self.erase();
                return Err(error);
            },
        }
        copy_into(&mut out, 32, static_part.as_slice());

        let mut es = self.s.ecdh(&re_pub).unwrap();
        self.state.mix_key(es.as_slice());
        wipe(&mut es);

        let mut certificate_part = slice_to_vec(certificate.as_slice());
        match self.state.encrypt_and_hash(&mut certificate_part) {
            Ok(()) => {},
            Err(error) => {
                self.erase();
                return Err(error);
            },
        }
        copy_into(&mut out, 80, certificate_part.as_slice());

        let mut keys = self.state.split();
        self.c1 = Some(GenericCipher::ChaCha20Poly1305(Cipher::from_key(keys.0)));
        self.c2 = Some(GenericCipher::ChaCha20Poly1305(Cipher::from_key(keys.1)));
        wipe(&mut keys.0);
        wipe(&mut keys.1);
        self.phase = ResponderPhase::AwaitCipherList;
        assert(out@ =~= reply_message(start, e, s, re_pub@, certificate@));
        Ok(out)
    }

    /// Takes in the first handshake message, the initiator's ephemeral key `re_pub`,
    /// and makes the second, with a certificate that the static key signs now for the
    /// next `validity_seconds` seconds.
    ///
    /// `re_pub` has to be a public key; `checked_step_1` takes any 32 bytes.
    pub fn step_1(&mut self, re_pub: [u8; 32], validity_seconds: u32) -> (result: Result<
        [u8; 170],
        Error,
    >)
        requires
            old(self).wf(),
            public_key_valid(re_pub@),
        ensures
            final(self).wf(),
            old(self).step_1_post(final(self), re_pub@, validity_seconds, result),
    {
        if self.phase != ResponderPhase::AwaitE {
            self.erase();
            return Err(Error::HandshakeNotFinalized);
        }
        let valid_from: u32 = match since_unix_epoch() {
            Some(elapsed) => (elapsed.as_secs() % 0x1_0000_0000) as u32,
            None => 0,
        };
        let not_valid_after: u32 = if validity_seconds > u32::MAX - valid_from {
            u32::MAX
        } else {
            valid_from + validity_seconds
        };
        let certificate = self.get_signature(VERSION, valid_from, not_valid_after);
        let result = self.step_1_with_certificate(re_pub, certificate);
        assert(issued(certificate@, valid_from, validity_seconds, old(self).s().public));
        result
    }

    /// `step_1`, for a first handshake message that may not hold a public key: such a
    /// message is refused with `None`, and the responder stays as it was.
    pub fn checked_step_1(&mut self, re_pub: [u8; 32], validity_seconds: u32) -> (result: Option<
        Result<[u8; 170], Error>,
    >)
        requires
            old(self).wf(),
        ensures
            final(self).wf(),
            result is Some <==> public_key_valid(re_pub@),
            result is None ==> *final(self) == *old(self),
            result matches Some(r) ==> old(self).step_1_post(
                final(self),
                re_pub@,
                validity_seconds,
                r,
            ),
    {
        if public_key_is_valid(&re_pub) {
            Some(self.step_1(re_pub, validity_seconds))
        } else {
            None
        }
    }

    /// What `step_3` does on a cipher list.
    ///
    /// Before `step_1` has succeeded, or on an aborted responder, it fails with
    /// `HandshakeNotFinalized`. A list that is not well-formed is refused as invalid,
    /// and a well-formed list that does not offer AES-256-GCM as unsupported, each
    /// with the list as received. Else it gives the cipher choice to send back and the
    /// transport codec, which encrypts under the second transport key and decrypts
    /// under the first, both counters at zero.
    pub open spec fn step_3_post(
        &self,
        cipher_list: Seq<u8>,
        result: Result<(Vec<u8>, NoiseCodec), Error>,
    ) -> bool {
        if !(self.phase() is AwaitCipherList) {
            result matches Err(error) && error is HandshakeNotFinalized
        } else {
            match negotiated(cipher_list) {
                Negotiated::Invalid => {
                    result matches Err(Error::InvalidCipherList(list)) && list@ == cipher_list
                },
                Negotiated::Unsupported => {
                    result matches Err(Error::UnsupportedCiphers(list)) && list@ == cipher_list
                },
                Negotiated::ChaCha => {
                    &&& result matches Ok((choice, codec))
                    &&& choice@ == choice_of_chacha()
                    &&& codec.encryptor() == (CipherView {
                        aes: false,
                        key: Some(self.pending().unwrap().1),
                        n: 0,
                    })
                    &&& codec.decryptor() == (CipherView {
                        aes: false,
                        key: Some(self.pending().unwrap().0),
                        n: 0,
                    })
                },
                Negotiated::Aes => {
                    &&& result matches Ok((choice, codec))
                    &&& choice@ == choice_of_aes()
                    &&& codec.encryptor() == (CipherView {
                        aes: true,
                        key: Some(self.pending().unwrap().1),
                        n: 0,
                    })
                    &&& codec.decryptor() == (CipherView {
                        aes: true,
                        key: Some(self.pending().unwrap().0),
                        n: 0,
                    })
                },
            }
        }
    }

    /// Takes in the initiator's cipher list and ends the handshake: gives the cipher
    /// choice to send back and the transport codec. The responder's secrets are
    /// overwritten in every case.
    pub fn step_3(self, cipher_list: Vec<u8>) -> (result: Result<(Vec<u8>, NoiseCodec), Error>)
        requires
            self.wf(),
        ensures
            self.step_3_post(cipher_list@, result),
    {
        let mut this = self;
        if this.phase != ResponderPhase::AwaitCipherList {
            this.erase();
            return Err(Error::HandshakeNotFinalized);
        }
        let mut encryptor = this.c2.take().unwrap();
        let mut decryptor = this.c1.take().unwrap();
        this.erase();
        let len = cipher_list.len();
        if len == 1 && cipher_list[0] == 0 {
            encryptor.erase_k();
            decryptor.erase_k();
            let mut choice: Vec<u8> = Vec::new();
            choice.push(0);
            assert(choice@ =~= choice_of_chacha());
            return Ok((choice, NoiseCodec::new(encryptor, decryptor)));
        }
        if len < 5 || (cipher_list[0] as usize) * 4 + 1 != len {
            encryptor.erase();
            decryptor.erase();
            return Err(Error::InvalidCipherList(cipher_list));
        }
        let count = cipher_list[0] as usize;
        let mut found = false;
        let mut i: usize = 0;
        while i < count && !found
            invariant
                i <= count,
                count == cipher_list@[0],
                count * 4 + 1 == cipher_list@.len(),
                !found ==> forall|j: int| 0 <= j < i ==> cipher_code(cipher_list@, j) != AESG@,
                found ==> offers_aes(cipher_list@),
            decreases count - i + if found { 0int } else { 1int },
        {
            let code = vstd::slice::slice_subrange(cipher_list.as_slice(), 1 + 4 * i, 5 + 4 * i);
            if bytes_equal(code, AESG.as_slice()) {
                assert(cipher_code(cipher_list@, i as int) == AESG@);
                found = true;
            } else {
                i += 1;
            }
        }
        if !found {
            encryptor.erase();
            decryptor.erase();
            return Err(Error::UnsupportedCiphers(cipher_list));
        }
        let mut encryptor = encryptor.into_aesg().unwrap();
        let mut decryptor = decryptor.into_aesg().unwrap();
        encryptor.erase_k();
        decryptor.erase_k();
        let mut choice: Vec<u8> = Vec::new();
        choice.push(1);
        choice.push(0x47);
        choice.push(0x53);
        choice.push(0x45);
        choice.push(0x41);
        assert(choice@ =~= choice_of_aes());
        Ok((choice, NoiseCodec::new(encryptor, decryptor)))
    }
}

/// Whether `certificate` is one that the holder of `public` issued at the time
/// `valid_from` for `validity` seconds: 74 bytes that start with the version and that
/// window, and are valid under `public`.
pub open spec fn issued(
    certificate: Seq<u8>,
    valid_from: u32,
    validity: u32,
    public: Seq<u8>,
) -> bool {
    &&& certificate.len() == 74
    &&& certificate.subrange(0, 10) == issued_header(valid_from, validity)
    &&& certificate_valid(public, certificate)
}

} // verus!
