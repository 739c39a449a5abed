//! Key pairs on secp256k1, the x-only Diffie-Hellman exchange and Schnorr signatures.
//!
//! A public key is the 32-byte x coordinate of a point. Wherever a point is rebuilt
//! from it, the point with the even y coordinate is taken.

use vstd::prelude::*;

verus! {

/// Whether 32 bytes are a secret key: a scalar that is not zero and below the order
/// of the curve.
pub uninterp spec fn secret_key_valid(bytes: Seq<u8>) -> bool;

/// Whether 32 bytes are the x coordinate of a point of the curve.
pub uninterp spec fn public_key_valid(bytes: Seq<u8>) -> bool;

/// The x-only public key of a secret key.
pub uninterp spec fn public_key_of(secret: Seq<u8>) -> Seq<u8>;

/// The product of a secret key and the even point of an x-only public key: 64 bytes,
/// the x coordinate and then the y coordinate.
pub uninterp spec fn shared_point(secret: Seq<u8>, public: Seq<u8>) -> Seq<u8>;

/// Whether a 64-byte Schnorr signature of a 32-byte digest verifies under an x-only
/// public key.
pub uninterp spec fn schnorr_valid(signature: Seq<u8>, digest: Seq<u8>, public: Seq<u8>) -> bool;

/// The shared secret of the exchange: the x coordinate of the shared point.
pub open spec fn shared_secret(secret: Seq<u8>, public: Seq<u8>) -> Seq<u8> {
    shared_point(secret, public).subrange(0, 32)
}

/// Whether the exchange between the key pair `own` and the holder of `public` comes out
/// the same on both sides: whoever holds the secret key of `public` gets, from `own`'s
/// public key, the shared secret that `own` gets from `public`.
pub open spec fn exchange_agrees(own: Keys, public: Seq<u8>) -> bool {
    forall|other: Seq<u8>|
        secret_key_valid(other) && #[trigger] public_key_of(other) == public ==> shared_secret(
            other,
            own.public,
        ) == shared_secret(own.secret, public)
}

/// `count` zero bytes.
pub open spec fn zeros(count: nat) -> Seq<u8> {
    Seq::new(count, |i: int| 0u8)
}

/// Calls `SecretKey::from_slice` of `secp256k1` and says whether it accepted the bytes.
#[verifier::external_body]
fn is_secret_key(bytes: &[u8; 32]) -> (valid: bool)
    ensures
        valid == secret_key_valid(bytes@),
{
    secp256k1::SecretKey::from_slice(bytes).is_ok()
}

/// Calls `XOnlyPublicKey::from_slice` of `secp256k1` and says whether it accepted the
/// bytes.
#[verifier::external_body]
fn is_public_key(bytes: &[u8; 32]) -> (valid: bool)
    ensures
        valid == public_key_valid(bytes@),
{
    secp256k1::XOnlyPublicKey::from_slice(bytes).is_ok()
}

/// Calls `SecretKey::new` of `secp256k1` with the thread's random number generator.
/// Which key comes back is not stated, only that it is a secret key: the function
/// draws until `secp256k1_ec_seckey_verify` accepts, the test that `from_slice` makes.
#[verifier::external_body]
fn random_secret_key() -> (secret: [u8; 32])
    ensures
        secret_key_valid(secret@),
{
    secp256k1::SecretKey::new(&mut secp256k1::rand::thread_rng()).secret_bytes()
}

/// Calls `SecretKey::x_only_public_key` of `secp256k1` on the secret key that
/// `SecretKey::from_slice` makes of the bytes: the result is the serialized x-only
/// public key of the secret key, which `XOnlyPublicKey::from_slice` accepts again.
#[verifier::external_body]
fn derive_public_key(secret: &[u8; 32]) -> (public: [u8; 32])
    requires
        secret_key_valid(secret@),
    ensures
        public@ == public_key_of(secret@),
        public_key_valid(public@),
{
    let secp = secp256k1::Secp256k1::signing_only();
    let key = secp256k1::SecretKey::from_slice(secret).expect("a secret key");
    key.x_only_public_key(&secp).0.serialize()
}

/// Calls `ecdh::shared_secret_point` of `secp256k1` on the secret key and on the even
/// point that `PublicKey::from_x_only_public_key` rebuilds from the public key. The
/// exchange is symmetric in the x coordinate: the product of one side's secret key with
/// the other side's point is, up to the sign of y, the product of both secret keys with
/// the generator, whichever side computes it.
#[verifier::external_body]
fn shared_secret_point(secret: &[u8; 32], public: &[u8; 32]) -> (point: [u8; 64])
    requires
        secret_key_valid(secret@),
        public_key_valid(public@),
    ensures
        point@ == shared_point(secret@, public@),
        forall|other: Seq<u8>|
            secret_key_valid(other) && #[trigger] public_key_of(other) == public@
                ==> shared_point(other, public_key_of(secret@)).subrange(0, 32)
                == point@.subrange(0, 32),
{
    let scalar = secp256k1::SecretKey::from_slice(secret).expect("a secret key");
    let x_only = secp256k1::XOnlyPublicKey::from_slice(public).expect("a public key");
    let point = secp256k1::PublicKey::from_x_only_public_key(x_only, secp256k1::Parity::Even);
    secp256k1::ecdh::shared_secret_point(&point, &scalar)
}

/// Calls `Secp256k1::sign_schnorr` of `secp256k1` with the key pair of the secret key
/// that `SecretKey::from_slice` makes of the bytes. The call draws its auxiliary
/// randomness from the thread's generator. Which signature comes back is not stated,
/// only that it verifies under the public key of the signing key, as every BIP-340
/// signature does.
#[verifier::external_body]
fn sign_schnorr(secret: &[u8; 32], digest: &[u8; 32]) -> (signature: [u8; 64])
    requires
        secret_key_valid(secret@),
    ensures
        schnorr_valid(signature@, digest@, public_key_of(secret@)),
{
    let secp = secp256k1::Secp256k1::signing_only();
    let key = secp256k1::SecretKey::from_slice(secret).expect("a secret key");
    let message = secp256k1::Message::from_slice(digest).expect("32 bytes");
    *secp.sign_schnorr(&message, &key.keypair(&secp)).as_ref()
}

/// Calls `Secp256k1::verify_schnorr` of `secp256k1` and says whether it accepted the
/// signature.
#[verifier::external_body]
fn verify_schnorr(signature: &[u8; 64], digest: &[u8; 32], public: &[u8; 32]) -> (valid: bool)
    requires
        public_key_valid(public@),
    ensures
        valid == schnorr_valid(signature@, digest@, public@),
{
    let secp = secp256k1::Secp256k1::verification_only();
    let key = secp256k1::XOnlyPublicKey::from_slice(public).expect("a public key");
    let message = secp256k1::Message::from_slice(digest).expect("32 bytes");
    let signature = secp256k1::schnorr::Signature::from_slice(signature).expect("64 bytes");
    secp.verify_schnorr(&signature, &message, &key).is_ok()
}

/// Calls `non_secure_erase_impl` of `secp256k1`'s `ffi`, which overwrites the bytes
/// with a volatile write that the compiler may not elide, then fences.
#[verifier::external_body]
pub(crate) fn wipe(bytes: &mut [u8; 32])
    ensures
        final(bytes)@ == zeros(32),
    no_unwind
{
    secp256k1::ffi::non_secure_erase_impl(bytes, [0u8; 32]);
}

/// Whether 32 bytes are the x coordinate of a point of the curve.
pub fn public_key_is_valid(bytes: &[u8; 32]) -> (valid: bool)
    ensures
        valid == public_key_valid(bytes@),
{
    is_public_key(bytes)
}

/// Whether a 64-byte Schnorr signature of a digest verifies under `public`. Bytes that
/// are no public key verify nothing.
pub fn signature_is_valid(signature: &[u8; 64], digest: &[u8; 32], public: &[u8; 32]) -> (valid:
    bool)
    ensures
        valid == (public_key_valid(public@) && schnorr_valid(signature@, digest@, public@)),
{
    if is_public_key(public) {
        verify_schnorr(signature, digest, public)
    } else {
        false
    }
}

/// The bytes of a key pair.
pub struct Keys {
    pub secret: Seq<u8>,
    pub public: Seq<u8>,
}

impl Keys {
    /// Whether the bytes are a key pair: a secret key and the public key that belongs
    /// to it.
    pub open spec fn usable(self) -> bool {
        &&& self.secret.len() == 32
        &&& self.public.len() == 32
        &&& secret_key_valid(self.secret)
        &&& public_key_valid(self.public)
        &&& self.public == public_key_of(self.secret)
    }
}

/// A secret key with its x-only public key. Until it is erased the secret is a valid
/// key and the public key is the one that belongs to it.
pub struct KeyPair {
    secret: [u8; 32],
    public: [u8; 32],
    erased: bool,
}

impl View for KeyPair {
    type V = Keys;

    open spec fn view(&self) -> Keys {
        Keys { secret: self.secret(), public: self.public() }
    }
}

impl KeyPair {
    #[verifier::type_invariant]
    spec fn holds_a_key(&self) -> bool {
        self.erased || (secret_key_valid(self.secret@) && public_key_valid(self.public@)
            && self.public@ == public_key_of(self.secret@))
    }

    /// The 32 bytes of the secret key.
    pub closed spec fn secret(&self) -> Seq<u8> {
        self.secret@
    }

    /// The 32 bytes of the x-only public key.
    pub closed spec fn public(&self) -> Seq<u8> {
        self.public@
    }

    /// Whether the key material has been overwritten.
    pub closed spec fn erased(&self) -> bool {
        self.erased
    }

    /// What holds of every key pair: unless it was erased, its secret is a secret key
    /// and its public key is the one that belongs to it.
    pub open spec fn well_formed(&self) -> bool {
        !self.erased() ==> self@.usable()
    }

    /// A fresh key pair from the thread's random number generator.
    pub fn generate() -> (pair: KeyPair)
        ensures
            !pair.erased(),
            pair.well_formed(),
    {
        let secret = random_secret_key();
        let public = derive_public_key(&secret);
        KeyPair { secret, public, erased: false }
    }

    /// The key pair of the given secret key, if the bytes are one.
    pub fn from_secret_bytes(secret: [u8; 32]) -> (pair: Option<KeyPair>)
        ensures
            pair is Some <==> secret_key_valid(secret@),
            pair matches Some(p) ==> !p.erased() && p.secret() == secret@ && p.well_formed(),
    {
        if is_secret_key(&secret) {
            let public = derive_public_key(&secret);
            Some(KeyPair { secret, public, erased: false })
        } else {
            None
        }
    }

    /// The x-only public key.
    pub fn public_key(&self) -> (public: [u8; 32])
        ensures
            public@ == self.public(),
            self.well_formed(),
    {
        proof {
            use_type_invariant(self);
        }
        self.public
    }

    /// The bytes of the secret key.
    pub fn secret_bytes(&self) -> (secret: [u8; 32])
        ensures
            secret@ == self.secret(),
            self.well_formed(),
    {
        proof {
            use_type_invariant(self);
        }
        self.secret
    }

    /// Whether the key material has been overwritten.
    pub fn is_erased(&self) -> (erased: bool)
        ensures
            self.well_formed(),
            erased == self.erased(),
    {
        proof {
            use_type_invariant(self);
        }
        self.erased
    }

    /// The shared secret with the holder of `public`: the x coordinate of the product
    /// of this pair's secret key and the even point of `public`. `None` when `public`
    /// is not the x coordinate of a point, or when this pair has been erased.
    pub fn ecdh(&self, public: &[u8; 32]) -> (secret: Option<[u8; 32]>)
        ensures
            self.well_formed(),
            secret is Some <==> !self.erased() && public_key_valid(public@),
            secret matches Some(x) ==> x@ == shared_secret(self.secret(), public@),
            secret is Some ==> exchange_agrees(self@, public@),
    {
        proof {
            use_type_invariant(self);
        }
        if self.erased || !is_public_key(public) {
            return None;
        }
        let point = shared_secret_point(&self.secret, public);
        let mut x = [0u8; 32];
        let mut i: usize = 0;
        while i < 32
            invariant
                i <= 32,
                forall|j: int| 0 <= j < i ==> x@[j] == point@[j],
            decreases 32 - i,
        {
            x[i] = point[i];
            i += 1;
        }
        Some(x)
    }

    /// A Schnorr signature of `digest` under this pair's secret key. `None` when the
    /// pair has been erased.
    pub fn sign(&self, digest: &[u8; 32]) -> (signature: Option<[u8; 64]>)
        ensures
            self.well_formed(),
            signature is Some <==> !self.erased(),
            signature matches Some(s) ==> schnorr_valid(s@, digest@, self.public()),
    {
        proof {
            use_type_invariant(self);
        }
        if self.erased {
            None
        } else {
            Some(sign_schnorr(&self.secret, digest))
        }
    }

    /// Overwrites the secret key and the public key with zeros.
    pub fn erase(&mut self)
        ensures
            final(self).erased(),
            final(self).secret() == zeros(32),
            final(self).public() == zeros(32),
    {
        self.erased = true;
        wipe(&mut self.secret);
        wipe(&mut self.public);
    }
}

} // verus!
