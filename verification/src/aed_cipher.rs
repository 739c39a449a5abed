//! The two AEAD ciphers of the protocol behind one interface.
//!
//! Both take a 32-byte key, a 12-byte nonce and associated data, encrypt a buffer in
//! place and append a 16-byte tag; decryption checks the tag and strips it.

use crate::curve::{wipe, zeros};
use crate::error::Error;
use vstd::prelude::*;

verus! {

/// What ChaCha20-Poly1305 makes of a plaintext: the ciphertext followed by the tag.
pub uninterp spec fn chacha20poly1305_seal(
    key: Seq<u8>,
    nonce: Seq<u8>,
    ad: Seq<u8>,
    plaintext: Seq<u8>,
) -> Seq<u8>;

/// What ChaCha20-Poly1305 makes of a ciphertext with its tag: the plaintext, or nothing
/// where the tag does not match.
pub uninterp spec fn chacha20poly1305_open(
    key: Seq<u8>,
    nonce: Seq<u8>,
    ad: Seq<u8>,
    ciphertext: Seq<u8>,
) -> Option<Seq<u8>>;

/// What AES-256-GCM makes of a plaintext: the ciphertext followed by the tag.
pub uninterp spec fn aes256gcm_seal(
    key: Seq<u8>,
    nonce: Seq<u8>,
    ad: Seq<u8>,
    plaintext: Seq<u8>,
) -> Seq<u8>;

/// What AES-256-GCM makes of a ciphertext with its tag: the plaintext, or nothing where
/// the tag does not match.
pub uninterp spec fn aes256gcm_open(
    key: Seq<u8>,
    nonce: Seq<u8>,
    ad: Seq<u8>,
    ciphertext: Seq<u8>,
) -> Option<Seq<u8>>;

/// The plaintext lengths that ChaCha20-Poly1305 encrypts: fewer than 2^32 - 1 blocks
/// of 64 bytes.
pub open spec fn chacha20poly1305_accepts(len: nat) -> bool {
    len / 64 < 0xffff_ffff
}

/// The lengths of associated data and plaintext that AES-256-GCM encrypts: at most
/// 2^36 bytes each.
pub open spec fn aes256gcm_accepts(ad_len: nat, len: nat) -> bool {
    ad_len <= 0x10_0000_0000 && len <= 0x10_0000_0000
}

/// Calls `encrypt_in_place` of `chacha20poly1305` with a cipher made from `key`. It
/// refuses plaintexts of 2^32 - 1 blocks or more and leaves them as they are; every
/// other it replaces by its sealing, 16 bytes longer, which `decrypt_in_place` opens
/// again to the plaintext.
#[verifier::external_body]
fn chacha20poly1305_encrypt(
    key: &[u8; 32],
    nonce: &[u8; 12],
    ad: &[u8],
    buffer: &mut Vec<u8>,
) -> (done: bool)
    ensures
        done == chacha20poly1305_accepts(old(buffer)@.len()),
        done ==> final(buffer)@ == chacha20poly1305_seal(key@, nonce@, ad@, old(buffer)@),
        done ==> final(buffer)@.len() == old(buffer)@.len() + 16,
        done ==> chacha20poly1305_open(key@, nonce@, ad@, final(buffer)@) == Some(old(buffer)@),
        !done ==> final(buffer)@ == old(buffer)@,
{
    let cipher = <chacha20poly1305::ChaCha20Poly1305 as chacha20poly1305::KeyInit>::new(
        chacha20poly1305::Key::from_slice(key),
    );
    let nonce = chacha20poly1305::Nonce::from_slice(nonce);
    chacha20poly1305::AeadInPlace::encrypt_in_place(&cipher, nonce, ad, buffer).is_ok()
}

/// Calls `decrypt_in_place` of `chacha20poly1305` with a cipher made from `key`. Where
/// the tag does not match it leaves the buffer as it is; otherwise it replaces the
/// buffer by the plaintext, 16 bytes shorter, whose sealing the buffer was.
#[verifier::external_body]
fn chacha20poly1305_decrypt(
    key: &[u8; 32],
    nonce: &[u8; 12],
    ad: &[u8],
    buffer: &mut Vec<u8>,
) -> (done: bool)
    ensures
        done == chacha20poly1305_open(key@, nonce@, ad@, old(buffer)@).is_some(),
        done ==> Some(final(buffer)@) == chacha20poly1305_open(key@, nonce@, ad@, old(buffer)@),
        done ==> final(buffer)@.len() + 16 == old(buffer)@.len(),
        done ==> chacha20poly1305_seal(key@, nonce@, ad@, final(buffer)@) == old(buffer)@,
        !done ==> final(buffer)@ == old(buffer)@,
{
    let cipher = <chacha20poly1305::ChaCha20Poly1305 as chacha20poly1305::KeyInit>::new(
        chacha20poly1305::Key::from_slice(key),
    );
    let nonce = chacha20poly1305::Nonce::from_slice(nonce);
    chacha20poly1305::AeadInPlace::decrypt_in_place(&cipher, nonce, ad, buffer).is_ok()
}

/// Calls `encrypt_in_place` of `aes_gcm` with an AES-256-GCM cipher made from `key`.
/// It refuses associated data or plaintexts of more than 2^36 bytes and leaves the
/// buffer as it is; every other plaintext it replaces by its sealing, 16 bytes longer,
/// which `decrypt_in_place` opens again to the plaintext.
#[verifier::external_body]
fn aes256gcm_encrypt(
    key: &[u8; 32],
    nonce: &[u8; 12],
    ad: &[u8],
    buffer: &mut Vec<u8>,
) -> (done: bool)
    ensures
        done == aes256gcm_accepts(ad@.len(), old(buffer)@.len()),
        done ==> final(buffer)@ == aes256gcm_seal(key@, nonce@, ad@, old(buffer)@),
        done ==> final(buffer)@.len() == old(buffer)@.len() + 16,
        done ==> aes256gcm_open(key@, nonce@, ad@, final(buffer)@) == Some(old(buffer)@),
        !done ==> final(buffer)@ == old(buffer)@,
{
    let cipher = <aes_gcm::Aes256Gcm as aes_gcm::KeyInit>::new(
        aes_gcm::Key::<aes_gcm::Aes256Gcm>::from_slice(key),
    );
    let nonce = aes_gcm::Nonce::from_slice(nonce);
    aes_gcm::AeadInPlace::encrypt_in_place(&cipher, nonce, ad, buffer).is_ok()
}

/// Calls `decrypt_in_place` of `aes_gcm` with an AES-256-GCM cipher made from `key`.
/// Where the tag does not match it leaves the buffer as it is; otherwise it replaces
/// the buffer by the plaintext, 16 bytes shorter, whose sealing the buffer was if the
/// plaintext is one that encryption takes.
#[verifier::external_body]
fn aes256gcm_decrypt(
    key: &[u8; 32],
    nonce: &[u8; 12],
    ad: &[u8],
    buffer: &mut Vec<u8>,
) -> (done: bool)
    ensures
        done == aes256gcm_open(key@, nonce@, ad@, old(buffer)@).is_some(),
        done ==> Some(final(buffer)@) == aes256gcm_open(key@, nonce@, ad@, old(buffer)@),
        done ==> final(buffer)@.len() + 16 == old(buffer)@.len(),
        done && aes256gcm_accepts(ad@.len(), final(buffer)@.len()) ==> aes256gcm_seal(
            key@,
            nonce@,
            ad@,
            final(buffer)@,
        ) == old(buffer)@,
        !done ==> final(buffer)@ == old(buffer)@,
{
    let cipher = <aes_gcm::Aes256Gcm as aes_gcm::KeyInit>::new(
        aes_gcm::Key::<aes_gcm::Aes256Gcm>::from_slice(key),
    );
    let nonce = aes_gcm::Nonce::from_slice(nonce);
    aes_gcm::AeadInPlace::decrypt_in_place(&cipher, nonce, ad, buffer).is_ok()
}

/// What encryption returns for the buffer `before` and leaves in it: where the cipher
/// accepts the lengths, the sealing `sealed` of `before`, which opens again
/// (`reopened`) to `before`; else a failure and the buffer as it was.
pub open spec fn seals(
    accepted: bool,
    sealed: Seq<u8>,
    reopened: Option<Seq<u8>>,
    before: Seq<u8>,
    after: Seq<u8>,
    result: Result<(), Error>,
) -> bool {
    if accepted {
        &&& result is Ok
        &&& after == sealed
        &&& after.len() == before.len() + 16
        &&& reopened == Some(before)
    } else {
        &&& result == Err::<(), Error>(Error::AeadFailure)
        &&& after == before
    }
}

/// What decryption returns for the buffer `before` and leaves in it: where `before`
/// opens (`opened`), the plaintext, whose sealing `resealed` is `before` again if the
/// cipher accepts its length; else a failure and the buffer as it was.
pub open spec fn opens(
    opened: Option<Seq<u8>>,
    accepted: bool,
    resealed: Seq<u8>,
    before: Seq<u8>,
    after: Seq<u8>,
    result: Result<(), Error>,
) -> bool {
    match opened {
        Some(plaintext) => {
            &&& result is Ok
            &&& after == plaintext
            &&& after.len() + 16 == before.len()
            &&& accepted ==> resealed == before
        },
        None => {
            &&& result == Err::<(), Error>(Error::AeadFailure)
            &&& after == before
        },
    }
}

/// An AEAD cipher with a 32-byte key, a 12-byte nonce and a 16-byte tag.
pub trait AeadCipher: Sized {
    /// The key that the cipher was made from.
    spec fn key(&self) -> Seq<u8>;

    /// The lengths of associated data and plaintext that the cipher encrypts.
    spec fn accepts(ad_len: nat, len: nat) -> bool;

    /// The ciphertext and tag of a plaintext.
    spec fn sealed(key: Seq<u8>, nonce: Seq<u8>, ad: Seq<u8>, plaintext: Seq<u8>) -> Seq<u8>;

    /// The plaintext of a ciphertext and tag, where the tag matches.
    spec fn opened(key: Seq<u8>, nonce: Seq<u8>, ad: Seq<u8>, ciphertext: Seq<u8>) -> Option<
        Seq<u8>,
    >;

    /// The cipher under the key `k`.
    fn from_key(k: [u8; 32]) -> (cipher: Self)
        ensures
            cipher.key() == k@,
    ;

    /// Encrypts `data` in place and appends the tag. Fails with `AeadFailure`, leaving
    /// `data` as it is, exactly when the cipher does not take the lengths.
    fn encrypt(&mut self, nonce: &[u8; 12], ad: &[u8], data: &mut Vec<u8>) -> (result: Result<
        (),
        Error,
    >)
        ensures
            final(self).key() == old(self).key(),
            seals(
                Self::accepts(ad@.len(), old(data)@.len()),
                Self::sealed(old(self).key(), nonce@, ad@, old(data)@),
                Self::opened(old(self).key(), nonce@, ad@, final(data)@),
                old(data)@,
                final(data)@,
                result,
            ),
    ;

    /// Checks the tag at the end of `data`, strips it and decrypts `data` in place.
    /// Fails with `AeadFailure`, leaving `data` as it is, exactly when the tag does not
    /// match.
    fn decrypt(&mut self, nonce: &[u8; 12], ad: &[u8], data: &mut Vec<u8>) -> (result: Result<
        (),
        Error,
    >)
        ensures
            final(self).key() == old(self).key(),
            opens(
                Self::opened(old(self).key(), nonce@, ad@, old(data)@),
                Self::accepts(ad@.len(), final(data)@.len()),
                Self::sealed(old(self).key(), nonce@, ad@, final(data)@),
                old(data)@,
                final(data)@,
                result,
            ),
    ;

    /// Overwrites the key with zeros.
    fn erase(&mut self)
        ensures
            final(self).key() == zeros(32),
    ;
}

/// ChaCha20-Poly1305, the cipher of the handshake and the default of the transport.
pub struct ChaCha20Poly1305 {
    key: [u8; 32],
}

impl AeadCipher for ChaCha20Poly1305 {
    closed spec fn key(&self) -> Seq<u8> {
        self.key@
    }

    open spec fn accepts(ad_len: nat, len: nat) -> bool {
        chacha20poly1305_accepts(len)
    }

    open spec fn sealed(key: Seq<u8>, nonce: Seq<u8>, ad: Seq<u8>, plaintext: Seq<u8>) -> Seq<u8> {
        chacha20poly1305_seal(key, nonce, ad, plaintext)
    }

    open spec fn opened(key: Seq<u8>, nonce: Seq<u8>, ad: Seq<u8>, ciphertext: Seq<u8>) -> Option<
        Seq<u8>,
    > {
        chacha20poly1305_open(key, nonce, ad, ciphertext)
    }

    fn from_key(k: [u8; 32]) -> (cipher: Self) {
        ChaCha20Poly1305 { key: k }
    }

    fn encrypt(&mut self, nonce: &[u8; 12], ad: &[u8], data: &mut Vec<u8>) -> (result: Result<
        (),
        Error,
    >) {
        if chacha20poly1305_encrypt(&self.key, nonce, ad, data) {
            Ok(())
        } else {
            Err(Error::AeadFailure)
        }
    }

    fn decrypt(&mut self, nonce: &[u8; 12], ad: &[u8], data: &mut Vec<u8>) -> (result: Result<
        (),
        Error,
    >) {
        if chacha20poly1305_decrypt(&self.key, nonce, ad, data) {
            Ok(())
        } else {
            Err(Error::AeadFailure)
        }
    }

    fn erase(&mut self) {
        wipe(&mut self.key);
    }
}

/// AES-256-GCM, the cipher that the transport can be upgraded to.
pub struct Aes256Gcm {
    key: [u8; 32],
}

impl AeadCipher for Aes256Gcm {
    closed spec fn key(&self) -> Seq<u8> {
        self.key@
    }

    open spec fn accepts(ad_len: nat, len: nat) -> bool {
        aes256gcm_accepts(ad_len, len)
    }

    open spec fn sealed(key: Seq<u8>, nonce: Seq<u8>, ad: Seq<u8>, plaintext: Seq<u8>) -> Seq<u8> {
        aes256gcm_seal(key, nonce, ad, plaintext)
    }

    open spec fn opened(key: Seq<u8>, nonce: Seq<u8>, ad: Seq<u8>, ciphertext: Seq<u8>) -> Option<
        Seq<u8>,
    > {
        aes256gcm_open(key, nonce, ad, ciphertext)
    }

    fn from_key(k: [u8; 32]) -> (cipher: Self) {
        Aes256Gcm { key: k }
    }

    fn encrypt(&mut self, nonce: &[u8; 12], ad: &[u8], data: &mut Vec<u8>) -> (result: Result<
        (),
        Error,
    >) {
        if aes256gcm_encrypt(&self.key, nonce, ad, data) {
            Ok(())
        } else {
            Err(Error::AeadFailure)
        }
    }

    fn decrypt(&mut self, nonce: &[u8; 12], ad: &[u8], data: &mut Vec<u8>) -> (result: Result<
        (),
        Error,
    >) {
        if aes256gcm_decrypt(&self.key, nonce, ad, data) {
            Ok(())
        } else {
            Err(Error::AeadFailure)
        }
    }

    fn erase(&mut self) {
        wipe(&mut self.key);
    }
}

} // verus!
