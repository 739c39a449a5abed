//! One direction of encrypted traffic: a key, the cipher made from it, and a counter
//! that gives every message its own nonce.

use crate::aed_cipher::{
    aes256gcm_accepts, aes256gcm_open, aes256gcm_seal, chacha20poly1305_accepts,
    chacha20poly1305_open, chacha20poly1305_seal, AeadCipher, Aes256Gcm, ChaCha20Poly1305,
};
use crate::curve::wipe;
use crate::error::Error;
use vstd::prelude::*;

verus! {

/// The eight bytes of a 64-bit counter, least significant first.
pub open spec fn le64(n: u64) -> Seq<u8> {
    seq![
        (n % 0x100) as u8,
        (n / 0x100 % 0x100) as u8,
        (n / 0x1_0000 % 0x100) as u8,
        (n / 0x100_0000 % 0x100) as u8,
        (n / 0x1_0000_0000 % 0x100) as u8,
        (n / 0x100_0000_0000 % 0x100) as u8,
        (n / 0x1_0000_0000_0000 % 0x100) as u8,
        (n / 0x100_0000_0000_0000 % 0x100) as u8,
    ]
}

/// The 12-byte nonce of the message with counter `n`: four zero bytes, then the
/// counter, least significant byte first.
pub open spec fn nonce_bytes(n: u64) -> Seq<u8> {
    seq![0u8, 0u8, 0u8, 0u8] + le64(n)
}

/// The nonce of the message with counter `n`.
pub fn nonce_for(n: u64) -> (nonce: [u8; 12])
    ensures
        nonce@ == nonce_bytes(n),
{
    let mut nonce = [0u8; 12];
    nonce[4] = (n % 0x100) as u8;
    nonce[5] = (n / 0x100 % 0x100) as u8;
    nonce[6] = (n / 0x1_0000 % 0x100) as u8;
    nonce[7] = (n / 0x100_0000 % 0x100) as u8;
    nonce[8] = (n / 0x1_0000_0000 % 0x100) as u8;
    nonce[9] = (n / 0x100_0000_0000 % 0x100) as u8;
    nonce[10] = (n / 0x1_0000_0000_0000 % 0x100) as u8;
    nonce[11] = (n / 0x100_0000_0000_0000 % 0x100) as u8;
    nonce
}

/// Why a cipher state with this key and counter does not encrypt a message of these
/// lengths, if it does not: it has no key or its counter has reached the last value,
/// which is never used as a nonce; or the cipher does not take the lengths.
pub open spec fn sealing_error(key: Option<Seq<u8>>, n: u64, accepted: bool) -> Option<Error> {
    if key is None || n == u64::MAX {
        Some(Error::InvalidCipherState)
    } else if !accepted {
        Some(Error::AeadFailure)
    } else {
        None
    }
}

/// Why a cipher state with this key and counter does not decrypt a message, if it does
/// not: it has no key or its counter has reached the last value; or the message does
/// not open under the key and the counter's nonce.
pub open spec fn opening_error(key: Option<Seq<u8>>, n: u64, opened: Option<Seq<u8>>) -> Option<
    Error,
> {
    if key is None || n == u64::MAX {
        Some(Error::InvalidCipherState)
    } else if opened is None {
        Some(Error::AeadFailure)
    } else {
        None
    }
}

/// A cipher state over the cipher `C`.
///
/// `residual_key` is the copy of the key that a state made by `from_key` keeps beside
/// its cipher, so that the state can be moved to another cipher; `erase_k` removes it
/// and leaves the cipher in use.
pub struct Cipher<C: AeadCipher> {
    k: Option<[u8; 32]>,
    n: u64,
    cipher: Option<C>,
}

impl<C: AeadCipher> Cipher<C> {
    /// The key that messages are encrypted under, if the state has one.
    pub closed spec fn key(&self) -> Option<Seq<u8>> {
        match self.cipher {
            Some(c) => Some(c.key()),
            None => None,
        }
    }

    /// The copy of the key kept beside the cipher.
    pub closed spec fn residual_key(&self) -> Option<Seq<u8>> {
        match self.k {
            Some(k) => Some(k@),
            None => None,
        }
    }

    /// The counter of the next message.
    pub closed spec fn n(&self) -> u64 {
        self.n
    }

    /// A state without a key.
    pub fn new() -> (state: Self)
        ensures
            state.key() is None,
            state.residual_key() is None,
            state.n() == 0,
    {
        Cipher { k: None, n: 0, cipher: None }
    }

    /// A state under the key `k`, with the counter at zero.
    pub fn from_key(k: [u8; 32]) -> (state: Self)
        ensures
            state.key() == Some(k@),
            state.residual_key() == Some(k@),
            state.n() == 0,
    {
        Cipher { k: Some(k), n: 0, cipher: Some(C::from_key(k)) }
    }

    /// The counter of the next message.
    pub fn get_n(&self) -> (n: u64)
        ensures
            n == self.n(),
    {
        self.n
    }

    /// Moves the counter to `n`. A counter must never go back under one key.
    pub fn set_n(&mut self, n: u64)
        ensures
            final(self).n() == n,
            final(self).key() == old(self).key(),
            final(self).residual_key() == old(self).residual_key(),
    {
        self.n = n;
    }

    /// Whether the state has a key to encrypt under.
    pub fn has_key(&self) -> (has: bool)
        ensures
            has == self.key().is_some(),
    {
        self.cipher.is_some()
    }

    /// The nonce of the next message.
    pub fn nonce_to_bytes(&self) -> (nonce: [u8; 12])
        ensures
            nonce@ == nonce_bytes(self.n()),
    {
        nonce_for(self.n)
    }

    /// Encrypts `data` in place under the next nonce, with `ad` as associated data, and
    /// appends the tag. On success the counter advances by one; on failure nothing
    /// changes.
    pub fn encrypt_with_ad(&mut self, ad: &[u8], data: &mut Vec<u8>) -> (result: Result<(), Error>)
        ensures
            final(self).key() == old(self).key(),
            final(self).residual_key() == old(self).residual_key(),
            match sealing_error(
                old(self).key(),
                old(self).n(),
                C::accepts(ad@.len(), old(data)@.len()),
            ) {
                Some(error) => {
                    &&& result == Err::<(), Error>(error)
                    &&& final(data)@ == old(data)@
                    &&& final(self).n() == old(self).n()
                },
                None => {
                    &&& result is Ok
                    &&& final(data)@ == C::sealed(
                        old(self).key().unwrap(),
                        nonce_bytes(old(self).n()),
                        ad@,
                        old(data)@,
                    )
                    &&& final(data)@.len() == old(data)@.len() + 16
                    &&& C::opened(
                        old(self).key().unwrap(),
                        nonce_bytes(old(self).n()),
                        ad@,
                        final(data)@,
                    ) == Some(old(data)@)
                    &&& final(self).n() == old(self).n() + 1
                },
            },
    {
        if self.n == u64::MAX {
            return Err(Error::InvalidCipherState);
        }
        let nonce = nonce_for(self.n);
        match &mut self.cipher {
            None => Err(Error::InvalidCipherState),
            Some(cipher) => {
                match cipher.encrypt(&nonce, ad, data) {
                    Ok(()) => {
                        self.n = self.n + 1;
                        Ok(())
                    },
                    Err(error) => Err(error),
                }
            },
        }
    }

    /// Checks the tag at the end of `data` under the next nonce, with `ad` as
    /// associated data, strips it and decrypts `data` in place. On success the counter
    /// advances by one; on failure nothing changes.
    pub fn decrypt_with_ad(&mut self, ad: &[u8], data: &mut Vec<u8>) -> (result: Result<(), Error>)
        ensures
            final(self).key() == old(self).key(),
            final(self).residual_key() == old(self).residual_key(),
            match opening_error(
                old(self).key(),
                old(self).n(),
                if old(self).key() is Some {
                    C::opened(
                        old(self).key().unwrap(),
                        nonce_bytes(old(self).n()),
                        ad@,
                        old(data)@,
                    )
                } else {
                    None
                },
            ) {
                Some(error) => {
                    &&& result == Err::<(), Error>(error)
                    &&& final(data)@ == old(data)@
                    &&& final(self).n() == old(self).n()
                },
                None => {
                    &&& result is Ok
                    &&& Some(final(data)@) == C::opened(
                        old(self).key().unwrap(),
                        nonce_bytes(old(self).n()),
                        ad@,
                        old(data)@,
                    )
                    &&& final(data)@.len() + 16 == old(data)@.len()
                    &&& C::accepts(ad@.len(), final(data)@.len()) ==> C::sealed(
                        old(self).key().unwrap(),
                        nonce_bytes(old(self).n()),
                        ad@,
                        final(data)@,
                    ) == old(data)@
                    &&& final(self).n() == old(self).n() + 1
                },
            },
    {
        if self.n == u64::MAX {
            return Err(Error::InvalidCipherState);
        }
        let nonce = nonce_for(self.n);
        match &mut self.cipher {
            None => Err(Error::InvalidCipherState),
            Some(cipher) => {
                match cipher.decrypt(&nonce, ad, data) {
                    Ok(()) => {
                        self.n = self.n + 1;
                        Ok(())
                    },
                    Err(error) => Err(error),
                }
            },
        }
    }

    /// Overwrites the copy of the key kept beside the cipher and drops it. The cipher
    /// stays in use.
    pub fn erase_k(&mut self)
        ensures
            final(self).residual_key() is None,
            final(self).key() == old(self).key(),
            final(self).n() == old(self).n(),
    {
        match &mut self.k {
            Some(k) => {
                wipe(k);
            },
            None => {},
        }
        self.k = None;
    }

    /// Overwrites every copy of the key and drops the cipher.
    pub fn erase(&mut self)
        ensures
            final(self).residual_key() is None,
            final(self).key() is None,
            final(self).n() == old(self).n(),
    {
        self.erase_k();
        match &mut self.cipher {
            Some(cipher) => {
                cipher.erase();
            },
            None => {},
        }
        self.cipher = None;
    }
}

impl Cipher<ChaCha20Poly1305> {
    /// A fresh AES-256-GCM state under the key kept beside the cipher, if there is one.
    /// This state's own copies of the key are overwritten.
    pub fn into_aesg(self) -> (state: Option<Cipher<Aes256Gcm>>)
        ensures
            state is Some <==> self.residual_key() is Some,
            state matches Some(s) ==> s.key() == self.residual_key() && s.residual_key()
                == self.residual_key() && s.n() == 0,
    {
        let mut this = self;
        let state = match this.k {
            Some(k) => Some(Cipher::<Aes256Gcm>::from_key(k)),
            None => None,
        };
        this.erase();
        state
    }
}

/// The lengths that the transport cipher encrypts: AES-256-GCM if `aes`, else
/// ChaCha20-Poly1305.
pub open spec fn accepts(aes: bool, ad_len: nat, len: nat) -> bool {
    if aes {
        aes256gcm_accepts(ad_len, len)
    } else {
        chacha20poly1305_accepts(len)
    }
}

/// The ciphertext and tag that the transport cipher makes of a plaintext.
pub open spec fn sealed(
    aes: bool,
    key: Seq<u8>,
    nonce: Seq<u8>,
    ad: Seq<u8>,
    plaintext: Seq<u8>,
) -> Seq<u8> {
    if aes {
        aes256gcm_seal(key, nonce, ad, plaintext)
    } else {
        chacha20poly1305_seal(key, nonce, ad, plaintext)
    }
}

/// The plaintext that the transport cipher makes of a ciphertext and tag, where the
/// tag matches.
pub open spec fn opened(
    aes: bool,
    key: Seq<u8>,
    nonce: Seq<u8>,
    ad: Seq<u8>,
    ciphertext: Seq<u8>,
) -> Option<Seq<u8>> {
    if aes {
        aes256gcm_open(key, nonce, ad, ciphertext)
    } else {
        chacha20poly1305_open(key, nonce, ad, ciphertext)
    }
}

/// What a transport cipher state is to its user: which cipher, under which key, and
/// the counter of the next message.
pub struct CipherView {
    pub aes: bool,
    pub key: Option<Seq<u8>>,
    pub n: u64,
}

impl CipherView {
    /// The nonce of the next message.
    pub open spec fn nonce(self) -> Seq<u8> {
        nonce_bytes(self.n)
    }

    /// The state after one more message.
    pub open spec fn advanced(self) -> CipherView {
        CipherView { n: (self.n + 1) as u64, ..self }
    }

    /// Why the state does not encrypt a message of `len` bytes, if it does not.
    pub open spec fn sealing_error(self, len: nat) -> Option<Error> {
        sealing_error(self.key, self.n, accepts(self.aes, 0, len))
    }

    /// Why the state does not decrypt `frame`, if it does not.
    pub open spec fn opening_error(self, frame: Seq<u8>) -> Option<Error> {
        opening_error(
            self.key,
            self.n,
            if self.key is Some {
                opened(self.aes, self.key.unwrap(), self.nonce(), Seq::empty(), frame)
            } else {
                None
            },
        )
    }
}

/// What encrypting does: on the state `before` and the buffer `message` it returns
/// `result` and leaves the state `after` and the buffer `frame`.
pub open spec fn encrypt_post(
    before: CipherView,
    message: Seq<u8>,
    after: CipherView,
    frame: Seq<u8>,
    result: Result<(), Error>,
) -> bool {
    match before.sealing_error(message.len()) {
        Some(error) => {
            &&& result == Err::<(), Error>(error)
            &&& frame == message
            &&& after == before
        },
        None => {
            &&& result is Ok
            &&& frame == sealed(
                before.aes,
                before.key.unwrap(),
                before.nonce(),
                Seq::empty(),
                message,
            )
            &&& frame.len() == message.len() + 16
            &&& opened(before.aes, before.key.unwrap(), before.nonce(), Seq::empty(), frame)
                == Some(message)
            &&& after == before.advanced()
        },
    }
}

/// What decrypting does: on the state `before` and the buffer `frame` it returns
/// `result` and leaves the state `after` and the buffer `message`.
pub open spec fn decrypt_post(
    before: CipherView,
    frame: Seq<u8>,
    after: CipherView,
    message: Seq<u8>,
    result: Result<(), Error>,
) -> bool {
    match before.opening_error(frame) {
        Some(error) => {
            &&& result == Err::<(), Error>(error)
            &&& message == frame
            &&& after == before
        },
        None => {
            &&& result is Ok
            &&& Some(message) == opened(
                before.aes,
                before.key.unwrap(),
                before.nonce(),
                Seq::empty(),
                frame,
            )
            &&& message.len() + 16 == frame.len()
            &&& accepts(before.aes, 0, message.len()) ==> sealed(
                before.aes,
                before.key.unwrap(),
                before.nonce(),
                Seq::empty(),
                message,
            ) == frame
            &&& after == before.advanced()
        },
    }
}

/// A transport cipher state over either cipher.
pub enum GenericCipher {
    ChaCha20Poly1305(Cipher<ChaCha20Poly1305>),
    Aes256Gcm(Cipher<Aes256Gcm>),
}

impl View for GenericCipher {
    type V = CipherView;

    open spec fn view(&self) -> CipherView {
        match self {
            GenericCipher::ChaCha20Poly1305(c) => CipherView { aes: false, key: c.key(), n: c.n() },
            GenericCipher::Aes256Gcm(c) => CipherView { aes: true, key: c.key(), n: c.n() },
        }
    }
}

impl GenericCipher {
    /// The copy of the key kept beside the cipher.
    pub open spec fn residual_key(&self) -> Option<Seq<u8>> {
        match self {
            GenericCipher::ChaCha20Poly1305(c) => c.residual_key(),
            GenericCipher::Aes256Gcm(c) => c.residual_key(),
        }
    }

    /// Encrypts `data` in place under the next nonce, without associated data, and
    /// appends the tag. On success the counter advances by one; on failure nothing
    /// changes.
    pub fn encrypt(&mut self, data: &mut Vec<u8>) -> (result: Result<(), Error>)
        ensures
            final(self).residual_key() == old(self).residual_key(),
            encrypt_post(old(self)@, old(data)@, final(self)@, final(data)@, result),
    {
        let none: [u8; 0] = [];
        assert(none@ =~= Seq::<u8>::empty());
        match self {
            GenericCipher::ChaCha20Poly1305(c) => c.encrypt_with_ad(none.as_slice(), data),
            GenericCipher::Aes256Gcm(c) => c.encrypt_with_ad(none.as_slice(), data),
        }
    }

    /// Checks the tag at the end of `data` under the next nonce, without associated
    /// data, strips it and decrypts `data` in place. On success the counter advances
    /// by one; on failure nothing changes.
    pub fn decrypt(&mut self, data: &mut Vec<u8>) -> (result: Result<(), Error>)
        ensures
            final(self).residual_key() == old(self).residual_key(),
            decrypt_post(old(self)@, old(data)@, final(self)@, final(data)@, result),
    {
        let none: [u8; 0] = [];
        assert(none@ =~= Seq::<u8>::empty());
        match self {
            GenericCipher::ChaCha20Poly1305(c) => c.decrypt_with_ad(none.as_slice(), data),
            GenericCipher::Aes256Gcm(c) => c.decrypt_with_ad(none.as_slice(), data),
        }
    }

    /// Overwrites the copy of the key kept beside the cipher and drops it. The cipher
    /// stays in use.
    pub fn erase_k(&mut self)
        ensures
            final(self).residual_key() is None,
            final(self)@ == old(self)@,
    {
        match self {
            GenericCipher::ChaCha20Poly1305(c) => c.erase_k(),
            GenericCipher::Aes256Gcm(c) => c.erase_k(),
        }
    }

    /// Overwrites every copy of the key and drops the cipher.
    pub fn erase(&mut self)
        ensures
            final(self).residual_key() is None,
            final(self)@.key is None,
            final(self)@.aes == old(self)@.aes,
            final(self)@.n == old(self)@.n,
    {
        match self {
            GenericCipher::ChaCha20Poly1305(c) => c.erase(),
            GenericCipher::Aes256Gcm(c) => c.erase(),
        }
    }

    /// The state moved to AES-256-GCM. A state under ChaCha20-Poly1305 becomes a fresh
    /// state under the key kept beside the cipher, if there is one, and its own copies
    /// of the key are overwritten. A state that is under AES-256-GCM already stays as
    /// it is, counter and all.
    pub fn into_aesg(self) -> (state: Option<GenericCipher>)
        ensures
            state is Some <==> self@.aes || self.residual_key() is Some,
            state matches Some(s) ==> s.residual_key() == self.residual_key(),
            state matches Some(s) ==> s@ == if self@.aes {
                self@
            } else {
                CipherView { aes: true, key: self.residual_key(), n: 0 }
            },
    {
        match self {
            GenericCipher::ChaCha20Poly1305(c) => match c.into_aesg() {
                Some(moved) => Some(GenericCipher::Aes256Gcm(moved)),
                None => None,
            },
            GenericCipher::Aes256Gcm(c) => Some(GenericCipher::Aes256Gcm(c)),
        }
    }
}

} // verus!
