//! The transport codec that a finished handshake yields: one cipher state for each
//! direction.

use crate::cipher_state::{decrypt_post, encrypt_post, CipherView, GenericCipher};
use crate::error::Error;
use crate::owner::NotShared;
use vstd::prelude::*;

verus! {

/// Seals the frames that go out and opens the frames that come in. Whoever is done
/// with a codec calls `erase`.
pub struct NoiseCodec {
    encryptor: GenericCipher,
    decryptor: GenericCipher,
    not_shared: NotShared,
}

impl NoiseCodec {
    /// The state that outgoing messages are encrypted under.
    pub closed spec fn encryptor(&self) -> CipherView {
        self.encryptor@
    }

    /// The state that incoming messages are decrypted under.
    pub closed spec fn decryptor(&self) -> CipherView {
        self.decryptor@
    }

    /// A codec of the two cipher states.
    pub fn new(encryptor: GenericCipher, decryptor: GenericCipher) -> (codec: Self)
        ensures
            codec.encryptor() == encryptor@,
            codec.decryptor() == decryptor@,
    {
        NoiseCodec { encryptor, decryptor, not_shared: core::marker::PhantomData }
    }

    /// Encrypts `msg` in place and appends the 16-byte tag. On success the outgoing
    /// counter advances by one; on failure nothing changes.
    pub fn encrypt(&mut self, msg: &mut Vec<u8>) -> (result: Result<(), Error>)
        ensures
            final(self).decryptor() == old(self).decryptor(),
            encrypt_post(
                old(self).encryptor(),
                old(msg)@,
                final(self).encryptor(),
                final(msg)@,
                result,
            ),
    {
        self.encryptor.encrypt(msg)
    }

    /// Checks and strips the 16-byte tag at the end of `msg` and decrypts `msg` in
    /// place. On success the incoming counter advances by one; on failure nothing
    /// changes.
    pub fn decrypt(&mut self, msg: &mut Vec<u8>) -> (result: Result<(), Error>)
        ensures
            final(self).encryptor() == old(self).encryptor(),
            decrypt_post(
                old(self).decryptor(),
                old(msg)@,
                final(self).decryptor(),
                final(msg)@,
                result,
            ),
    {
        self.decryptor.decrypt(msg)
    }

    /// Overwrites the keys of both directions. The codec encrypts and decrypts nothing
    /// afterwards.
    pub fn erase(&mut self)
        ensures
            final(self).encryptor().key is None,
            final(self).decryptor().key is None,
    {
        self.encryptor.erase();
        self.decryptor.erase();
    }
}

} // verus!
