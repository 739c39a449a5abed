//! The certificate that the responder sends: a version, a validity window, and a
//! Schnorr signature that binds them to the responder's static public key.
//!
//! On the wire it is 74 bytes: the version in two bytes, the start and the end of the
//! window in four bytes each, all least significant byte first, then the 64 bytes of
//! the signature. What is signed is the SHA-256 digest of the static public key
//! followed by the first ten of those bytes.

use crate::curve::{public_key_valid, schnorr_valid, signature_is_valid, KeyPair};
use crate::hash::{sha256, sha256_digest};
use vstd::prelude::*;

verus! {

/// The two bytes of a 16-bit number, least significant first.
pub open spec fn le16(v: u16) -> Seq<u8> {
    seq![(v % 0x100) as u8, (v / 0x100) as u8]
}

/// The four bytes of a 32-bit number, least significant first.
pub open spec fn le32(v: u32) -> Seq<u8> {
    seq![
        (v % 0x100) as u8,
        (v / 0x100 % 0x100) as u8,
        (v / 0x1_0000 % 0x100) as u8,
        (v / 0x100_0000) as u8,
    ]
}

/// The number that two bytes spell, least significant first.
pub open spec fn from_le16(bytes: Seq<u8>) -> int {
    bytes[0] + 0x100 * bytes[1]
}

/// The number that four bytes spell, least significant first.
pub open spec fn from_le32(bytes: Seq<u8>) -> int {
    bytes[0] + 0x100 * bytes[1] + 0x1_0000 * bytes[2] + 0x100_0000 * bytes[3]
}

/// The digest that the certificate's signature signs.
pub open spec fn signed_digest(public: Seq<u8>, header: Seq<u8>) -> Seq<u8> {
    sha256(public + header)
}

/// Whether the 74 bytes of a certificate are valid under the static public key
/// `public`: the validity window is not empty, `public` is a public key, and the
/// signature is one of `public` over the digest of `public` and the first ten bytes.
pub open spec fn certificate_valid(public: Seq<u8>, certificate: Seq<u8>) -> bool {
    &&& from_le32(certificate.subrange(2, 6)) <= from_le32(certificate.subrange(6, 10))
    &&& public_key_valid(public)
    &&& schnorr_valid(
        certificate.subrange(10, 74),
        signed_digest(public, certificate.subrange(0, 10)),
        public,
    )
}

proof fn lemma_le16_round_trip(low: u8, high: u8)
    ensures
        le16((low + 0x100 * high) as u16) == seq![low, high],
{
    let v = (low + 0x100 * high) as u16;
    assert(v % 0x100 == low && v / 0x100 == high) by (bit_vector)
        requires
            v == low + 0x100 * high,
    ;
}

proof fn lemma_le32_round_trip(b0: u8, b1: u8, b2: u8, b3: u8)
    ensures
        le32((b0 + 0x100 * b1 + 0x1_0000 * b2 + 0x100_0000 * b3) as u32) == seq![b0, b1, b2, b3],
{
    let v = (b0 + 0x100 * b1 + 0x1_0000 * b2 + 0x100_0000 * b3) as u32;
    assert(v % 0x100 == b0 && v / 0x100 % 0x100 == b1 && v / 0x1_0000 % 0x100 == b2 && v
        / 0x100_0000 == b3) by (bit_vector)
        requires
            v == b0 + 0x100 * b1 + 0x1_0000 * b2 + 0x100_0000 * b3,
    ;
}

proof fn lemma_from_le32_of_le32(v: u32)
    ensures
        from_le32(le32(v)) == v,
{
    assert(v == (v % 0x100) + 0x100 * (v / 0x100 % 0x100) + 0x1_0000 * (v / 0x1_0000 % 0x100)
        + 0x100_0000 * (v / 0x100_0000)) by (bit_vector);
}

/// The first ten bytes of a certificate spell its version and its validity window: of
/// bytes that begin with the encoding of the three numbers, decoding gives the numbers
/// back.
pub proof fn lemma_header_spells_window(
    bytes: Seq<u8>,
    version: u16,
    valid_from: u32,
    not_valid_after: u32,
)
    requires
        bytes.len() >= 10,
        bytes.subrange(0, 10) == le16(version) + le32(valid_from) + le32(not_valid_after),
    ensures
        from_le16(bytes.subrange(0, 2)) == version,
        from_le32(bytes.subrange(2, 6)) == valid_from,
        from_le32(bytes.subrange(6, 10)) == not_valid_after,
{
    let header = le16(version) + le32(valid_from) + le32(not_valid_after);
    assert(header.subrange(2, 6) =~= le32(valid_from));
    assert(header.subrange(6, 10) =~= le32(not_valid_after));
    lemma_from_le32_of_le32(valid_from);
    lemma_from_le32_of_le32(not_valid_after);
}

/// The certificate, field by field.
pub struct SignatureNoiseMessage {
    pub version: u16,
    pub valid_from: u32,
    pub not_valid_after: u32,
    pub signature: [u8; 64],
}

impl SignatureNoiseMessage {
    /// The first ten bytes on the wire: version and validity window.
    pub open spec fn header(&self) -> Seq<u8> {
        le16(self.version) + le32(self.valid_from) + le32(self.not_valid_after)
    }

    /// The 74 bytes on the wire.
    pub open spec fn bytes(&self) -> Seq<u8> {
        self.header() + self.signature@
    }

    /// The certificate that 74 bytes spell.
    pub fn from_bytes(bytes: [u8; 74]) -> (message: Self)
        ensures
            message.bytes() == bytes@,
    {
        let version: u16 = bytes[0] as u16 + 0x100 * (bytes[1] as u16);
        let valid_from: u32 = bytes[2] as u32 + 0x100 * (bytes[3] as u32) + 0x1_0000 * (
        bytes[4] as u32) + 0x100_0000 * (bytes[5] as u32);
        let not_valid_after: u32 = bytes[6] as u32 + 0x100 * (bytes[7] as u32) + 0x1_0000 * (
        bytes[8] as u32) + 0x100_0000 * (bytes[9] as u32);
        let mut signature = [0u8; 64];
        let mut i: usize = 0;
        while i < 64
            invariant
                i <= 64,
                forall|j: int| 0 <= j < i ==> signature@[j] == bytes@[10 + j],
            decreases 64 - i,
        {
            signature[i] = bytes[10 + i];
            i += 1;
        }
        let message = SignatureNoiseMessage { version, valid_from, not_valid_after, signature };
        proof {
            lemma_le16_round_trip(bytes[0], bytes[1]);
            lemma_le32_round_trip(bytes[2], bytes[3], bytes[4], bytes[5]);
            lemma_le32_round_trip(bytes[6], bytes[7], bytes[8], bytes[9]);
        }
        message
    }

    /// The 74 bytes on the wire.
    pub fn to_bytes(&self) -> (bytes: [u8; 74])
        ensures
            bytes@ == self.bytes(),
    {
        let mut bytes = [0u8; 74];
        bytes[0] = (self.version % 0x100) as u8;
        bytes[1] = (self.version / 0x100) as u8;
        bytes[2] = (self.valid_from % 0x100) as u8;
        bytes[3] = (self.valid_from / 0x100 % 0x100) as u8;
        bytes[4] = (self.valid_from / 0x1_0000 % 0x100) as u8;
        bytes[5] = (self.valid_from / 0x100_0000) as u8;
        bytes[6] = (self.not_valid_after % 0x100) as u8;
        bytes[7] = (self.not_valid_after / 0x100 % 0x100) as u8;
        bytes[8] = (self.not_valid_after / 0x1_0000 % 0x100) as u8;
        bytes[9] = (self.not_valid_after / 0x100_0000) as u8;
        let mut i: usize = 0;
        while i < 64
            invariant
                i <= 64,
                bytes@.subrange(0, 10) == self.header(),
                forall|j: int| 0 <= j < i ==> bytes@[10 + j] == self.signature@[j],
            decreases 64 - i,
        {
            bytes[10 + i] = self.signature[i];
            i += 1;
        }
        bytes
    }

    /// Whether the certificate is valid under the static public key `pk`. The answer
    /// depends on the 74 bytes and on `pk` alone.
    pub fn verify(&self, pk: &[u8; 32]) -> (valid: bool)
        ensures
            valid == certificate_valid(pk@, self.bytes()),
    {
        proof {
            lemma_from_le32_of_le32(self.valid_from);
            lemma_from_le32_of_le32(self.not_valid_after);
            assert(self.bytes().subrange(10, 74) =~= self.signature@);
        }
        if self.valid_from > self.not_valid_after {
            return false;
        }
        let bytes = self.to_bytes();
        let digest = digest_to_sign(pk, &bytes);
        signature_is_valid(&self.signature, &digest, pk)
    }

    /// Signs the first ten bytes of `msg` with the static key pair `kp` and writes the
    /// signature into the 64 bytes behind them. Nothing is written if `kp` has been
    /// erased.
    pub fn sign(msg: &mut [u8; 74], kp: &KeyPair) -> (signed: bool)
        ensures
            kp.well_formed(),
            signed == !kp.erased(),
            final(msg)@.subrange(0, 10) == old(msg)@.subrange(0, 10),
            signed ==> schnorr_valid(
                final(msg)@.subrange(10, 74),
                signed_digest(kp.public(), old(msg)@.subrange(0, 10)),
                kp.public(),
            ),
            !signed ==> final(msg)@ == old(msg)@,
    {
        let public = kp.public_key();
        let digest = digest_to_sign(&public, msg);
        match kp.sign(&digest) {
            None => false,
            Some(signature) => {
                let mut i: usize = 0;
                while i < 64
                    invariant
                        i <= 64,
                        msg@.subrange(0, 10) == old(msg)@.subrange(0, 10),
                        forall|j: int| 0 <= j < i ==> msg@[10 + j] == signature@[j],
                    decreases 64 - i,
                {
                    msg[10 + i] = signature[i];
                    i += 1;
                }
                assert(msg@.subrange(10, 74) =~= signature@);
                true
            },
        }
    }
}

/// The bytes of a certificate determine its fields: two certificates with the same 74
/// bytes are the same certificate.
pub proof fn lemma_bytes_determine_fields(a: SignatureNoiseMessage, b: SignatureNoiseMessage)
    requires
        a.bytes() == b.bytes(),
    ensures
        a == b,
{
    let bytes = a.bytes();
    assert(bytes.subrange(0, 10) =~= a.header());
    lemma_header_spells_window(bytes, a.version, a.valid_from, a.not_valid_after);
    lemma_header_spells_window(bytes, b.version, b.valid_from, b.not_valid_after);
    assert(bytes.subrange(10, 74) =~= b.signature@);
    assert(a.signature =~= b.signature);
}

impl From<[u8; 74]> for SignatureNoiseMessage {
    /// The certificate that 74 bytes spell.
    fn from(bytes: [u8; 74]) -> (message: Self) {
        let message = SignatureNoiseMessage::from_bytes(bytes);
        proof {
            let spelled = choose|m: SignatureNoiseMessage| m.bytes() == bytes@;
            lemma_bytes_determine_fields(message, spelled);
        }
        message
    }
}

impl vstd::std_specs::convert::FromSpecImpl<[u8; 74]> for SignatureNoiseMessage {
    open spec fn obeys_from_spec() -> bool {
        true
    }

    open spec fn from_spec(bytes: [u8; 74]) -> Self {
        choose|message: Self| message.bytes() == bytes@
    }
}

/// The digest that the signature of `certificate` signs under the static public key
/// `public`: SHA-256 of the key followed by the certificate's first ten bytes.
pub fn digest_to_sign(public: &[u8; 32], certificate: &[u8; 74]) -> (digest: [u8; 32])
    ensures
        digest@ == signed_digest(public@, certificate@.subrange(0, 10)),
{
    let mut signed: Vec<u8> = Vec::with_capacity(42);
    signed.extend_from_slice(public.as_slice());
    let mut i: usize = 0;
    while i < 10
        invariant
            i <= 10,
            signed@.len() == 32 + i,
            signed@.subrange(0, 32) == public@,
            forall|j: int| 0 <= j < i ==> signed@[32 + j] == certificate@[j],
        decreases 10 - i,
    {
        signed.push(certificate[i]);
        i += 1;
    }
    assert(signed@ =~= public@ + certificate@.subrange(0, 10));
    sha256_digest(signed.as_slice())
}

} // verus!
