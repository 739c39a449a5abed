//! The symmetric state of a handshake: the chaining key, the transcript hash, and the
//! key and counter that encrypt the handshake's own payloads.

use crate::aed_cipher::{
    chacha20poly1305_accepts, chacha20poly1305_open, chacha20poly1305_seal, ChaCha20Poly1305,
};
use crate::cipher_state::{nonce_bytes, opening_error, sealing_error, Cipher};
use crate::curve::{wipe, zeros};
use crate::error::Error;
use crate::hash::{hkdf_2, hkdf_2_spec, sha256, sha256_digest};
use vstd::prelude::*;

verus! {

/// What the transcript hash starts from: the protocol name padded with zeros to 32
/// bytes if it fits, else its SHA-256 digest.
pub open spec fn protocol_name_hash(name: Seq<u8>) -> Seq<u8> {
    if name.len() <= 32 {
        name + zeros((32 - name.len()) as nat)
    } else {
        sha256(name)
    }
}

/// The symmetric state as the handshake's rules see it.
pub struct Symmetric {
    /// The chaining key.
    pub ck: Seq<u8>,
    /// The transcript hash.
    pub h: Seq<u8>,
    /// The key that payloads are encrypted under, once a key was mixed in.
    pub k: Option<Seq<u8>>,
    /// The counter of the next payload under `k`.
    pub n: u64,
}

impl Symmetric {
    /// The state that a handshake under the protocol `name` starts in.
    pub open spec fn initial(name: Seq<u8>) -> Symmetric {
        Symmetric { ck: protocol_name_hash(name), h: protocol_name_hash(name), k: None, n: 0 }
    }

    /// MixHash: the transcript hash takes `data` in.
    pub open spec fn mix_hash(self, data: Seq<u8>) -> Symmetric {
        Symmetric { h: sha256(self.h + data), ..self }
    }

    /// MixKey: the chaining key and a fresh payload key are derived from the chaining
    /// key and `ikm`, and the counter starts again.
    pub open spec fn mix_key(self, ikm: Seq<u8>) -> Symmetric {
        Symmetric {
            ck: hkdf_2_spec(self.ck, ikm).0,
            k: Some(hkdf_2_spec(self.ck, ikm).1),
            n: 0,
            ..self
        }
    }

    /// Why EncryptAndHash fails on a payload of `len` bytes, if it does.
    pub open spec fn encrypt_error(self, len: nat) -> Option<Error> {
        if self.k is None {
            None
        } else {
            sealing_error(self.k, self.n, chacha20poly1305_accepts(len))
        }
    }

    /// What EncryptAndHash sends for `plaintext`: its sealing under the payload key with
    /// the transcript hash as associated data, or `plaintext` itself while there is no
    /// key.
    pub open spec fn encrypted(self, plaintext: Seq<u8>) -> Seq<u8> {
        match self.k {
            Some(k) => chacha20poly1305_seal(k, nonce_bytes(self.n), self.h, plaintext),
            None => plaintext,
        }
    }

    /// EncryptAndHash where it succeeds: the counter advances if there is a key, and
    /// the transcript hash takes in what is sent.
    pub open spec fn encrypt_and_hash(self, plaintext: Seq<u8>) -> Symmetric {
        Symmetric {
            n: if self.k is Some {
                (self.n + 1) as u64
            } else {
                self.n
            },
            ..self
        }.mix_hash(self.encrypted(plaintext))
    }

    /// What DecryptAndHash makes of `ciphertext`, if the tag matches: the plaintext
    /// under the payload key with the transcript hash as associated data, or
    /// `ciphertext` itself while there is no key.
    pub open spec fn decrypted(self, ciphertext: Seq<u8>) -> Option<Seq<u8>> {
        match self.k {
            Some(k) => chacha20poly1305_open(k, nonce_bytes(self.n), self.h, ciphertext),
            None => Some(ciphertext),
        }
    }

    /// Why DecryptAndHash fails on `ciphertext`, if it does.
    pub open spec fn decrypt_error(self, ciphertext: Seq<u8>) -> Option<Error> {
        if self.k is None {
            None
        } else {
            opening_error(self.k, self.n, self.decrypted(ciphertext))
        }
    }

    /// DecryptAndHash: the transcript hash takes in what was received, and the counter
    /// advances if there is a key and the payload opened.
    pub open spec fn decrypt_and_hash(self, ciphertext: Seq<u8>) -> Symmetric {
        Symmetric {
            n: if self.k is Some && self.decrypt_error(ciphertext) is None {
                (self.n + 1) as u64
            } else {
                self.n
            },
            ..self
        }.mix_hash(ciphertext)
    }

    /// The two transport keys that the handshake ends with.
    pub open spec fn split(self) -> (Seq<u8>, Seq<u8>) {
        hkdf_2_spec(self.ck, Seq::empty())
    }
}

/// The transcript hash `h` after it has taken `data` in.
pub fn mixed_hash(h: &[u8; 32], data: &[u8]) -> (mixed: [u8; 32])
    ensures
        mixed@ == sha256(h@ + data@),
{
    let mut to_hash: Vec<u8> = Vec::with_capacity(32);
    to_hash.extend_from_slice(h.as_slice());
    to_hash.extend_from_slice(data);
    assert(to_hash@ == h@ + data@);
    sha256_digest(to_hash.as_slice())
}

/// The symmetric state of one role.
pub struct SymmetricState {
    ck: [u8; 32],
    h: [u8; 32],
    cipher: Cipher<ChaCha20Poly1305>,
}

impl View for SymmetricState {
    type V = Symmetric;

    closed spec fn view(&self) -> Symmetric {
        Symmetric { ck: self.ck@, h: self.h@, k: self.cipher.key(), n: self.cipher.n() }
    }
}

impl SymmetricState {
    /// The state that a handshake under the protocol `name` starts in.
    pub fn initialize(name: &[u8]) -> (state: Self)
        ensures
            state@ == Symmetric::initial(name@),
    {
        let mut h = [0u8; 32];
        let len = name.len();
        if len <= 32 {
            let mut i: usize = 0;
            while i < len
                invariant
                    i <= len <= 32,
                    len == name@.len(),
                    forall|j: int| 0 <= j < i ==> h@[j] == name@[j],
                    forall|j: int| i <= j < 32 ==> h@[j] == 0,
                decreases len - i,
            {
                h[i] = name[i];
                i += 1;
            }
            assert(h@ =~= protocol_name_hash(name@));
        } else {
            h = sha256_digest(name);
        }
        SymmetricState { ck: h, h, cipher: Cipher::new() }
    }

    /// The transcript hash.
    pub fn get_h(&self) -> (h: [u8; 32])
        ensures
            h@ == self@.h,
    {
        self.h
    }

    /// The chaining key.
    pub fn get_ck(&self) -> (ck: [u8; 32])
        ensures
            ck@ == self@.ck,
    {
        self.ck
    }

    /// The counter of the next payload.
    pub fn get_n(&self) -> (n: u64)
        ensures
            n == self@.n,
    {
        self.cipher.get_n()
    }

    /// Whether a payload key has been mixed in.
    pub fn has_key(&self) -> (has: bool)
        ensures
            has == self@.k.is_some(),
    {
        self.cipher.has_key()
    }

    /// MixHash: replaces the transcript hash by the digest of itself followed by
    /// `data`.
    pub fn mix_hash(&mut self, data: &[u8])
        ensures
            final(self)@ == old(self)@.mix_hash(data@),
    {
        self.h = mixed_hash(&self.h, data);
    }

    /// MixKey: derives the next chaining key and a fresh payload key from the chaining
    /// key and `input_key_material`; the counter starts again at zero.
    pub fn mix_key(&mut self, input_key_material: &[u8])
        ensures
            final(self)@ == old(self)@.mix_key(input_key_material@),
    {
        let mut derived = hkdf_2(&self.ck, input_key_material);
        self.ck = derived.0;
        self.cipher.erase();
        self.cipher = Cipher::from_key(derived.1);
        wipe(&mut derived.0);
        wipe(&mut derived.1);
    }

    /// EncryptAndHash: while there is a payload key, encrypts `plaintext` in place with
    /// the transcript hash as associated data and appends the tag; then the
    /// transcript hash takes in what is now in the buffer. On failure nothing changes.
    pub fn encrypt_and_hash(&mut self, plaintext: &mut Vec<u8>) -> (result: Result<(), Error>)
        ensures
            match old(self)@.encrypt_error(old(plaintext)@.len()) {
                Some(error) => {
                    &&& result == Err::<(), Error>(error)
                    &&& final(self)@ == old(self)@
                    &&& final(plaintext)@ == old(plaintext)@
                },
                None => {
                    &&& result is Ok
                    &&& final(self)@ == old(self)@.encrypt_and_hash(old(plaintext)@)
                    &&& final(plaintext)@ == old(self)@.encrypted(old(plaintext)@)
                    &&& old(self)@.decrypted(final(plaintext)@) == Some(old(plaintext)@)
                    &&& final(plaintext)@.len() == old(plaintext)@.len() + if old(self)@.k is Some {
                        16int
                    } else {
                        0int
                    }
                },
            },
    {
        if self.cipher.has_key() {
            let ad = self.h;
            match self.cipher.encrypt_with_ad(ad.as_slice(), plaintext) {
                Ok(()) => {},
                Err(error) => {
                    return Err(error);
                },
            }
        }
        self.mix_hash(plaintext.as_slice());
        Ok(())
    }

    /// DecryptAndHash: the transcript hash takes in `ciphertext` as received; then,
    /// while there is a payload key, the tag is checked with the earlier transcript
    /// hash as associated data and `ciphertext` is decrypted in place. On failure the
    /// buffer and the counter are as before.
    pub fn decrypt_and_hash(&mut self, ciphertext: &mut Vec<u8>) -> (result: Result<(), Error>)
        ensures
            final(self)@ == old(self)@.decrypt_and_hash(old(ciphertext)@),
            match old(self)@.decrypt_error(old(ciphertext)@) {
                Some(error) => {
                    &&& result == Err::<(), Error>(error)
                    &&& final(ciphertext)@ == old(ciphertext)@
                },
                None => {
                    &&& result is Ok
                    &&& Some(final(ciphertext)@) == old(self)@.decrypted(old(ciphertext)@)
                    &&& chacha20poly1305_accepts(final(ciphertext)@.len()) ==> old(self)@.encrypted(
                        final(ciphertext)@,
                    ) == old(ciphertext)@
                    &&& final(ciphertext)@.len() + if old(self)@.k is Some {
                        16int
                    } else {
                        0int
                    } == old(ciphertext)@.len()
                },
            },
    {
        let ad = self.h;
        self.mix_hash(ciphertext.as_slice());
        if self.cipher.has_key() {
            self.cipher.decrypt_with_ad(ad.as_slice(), ciphertext)
        } else {
            Ok(())
        }
    }

    /// The two transport keys: HKDF of the chaining key and no input, cut in two.
    pub fn split(&self) -> (keys: ([u8; 32], [u8; 32]))
        ensures
            (keys.0@, keys.1@) == self@.split(),
    {
        let none: [u8; 0] = [];
        hkdf_2(&self.ck, none.as_slice())
    }

    /// Overwrites the chaining key, the transcript hash and the payload key with
    /// zeros.
    pub fn erase(&mut self)
        ensures
            final(self)@ == (Symmetric { ck: zeros(32), h: zeros(32), k: None, n: old(self)@.n }),
    {
        wipe(&mut self.ck);
        wipe(&mut self.h);
        self.cipher.erase();
    }
}

} // verus!
