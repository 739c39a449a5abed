//! SHA-256 and the key derivation built on it: HMAC and HKDF with 32-byte outputs.

use vstd::prelude::*;

verus! {

/// The SHA-256 digest of a byte string.
pub uninterp spec fn sha256(data: Seq<u8>) -> Seq<u8>;

/// Calls `sha256::Hash::hash` of the `bitcoin_hashes` crate, which `secp256k1`
/// re-exports as `hashes`. The result is the SHA-256 digest of `data`.
#[verifier::external_body]
pub(crate) fn sha256_digest(data: &[u8]) -> (digest: [u8; 32])
    ensures
        digest@ == sha256(data@),
{
    let digest = <secp256k1::hashes::sha256::Hash as secp256k1::hashes::Hash>::hash(data);
    secp256k1::hashes::Hash::to_byte_array(digest)
}

/// The key of HMAC, padded with zeros to the 64-byte block of SHA-256 and masked.
pub open spec fn hmac_pad(key: Seq<u8>, mask: u8) -> Seq<u8> {
    Seq::new(64, |i: int| if i < key.len() { key[i] ^ mask } else { mask })
}

/// HMAC-SHA256 under a key of at most 64 bytes.
pub open spec fn hmac_sha256(key: Seq<u8>, data: Seq<u8>) -> Seq<u8> {
    sha256(hmac_pad(key, 0x5c) + sha256(hmac_pad(key, 0x36) + data))
}

/// The pseudorandom key that HKDF extracts from the salt and the input key material.
pub open spec fn hkdf_extract(salt: Seq<u8>, ikm: Seq<u8>) -> Seq<u8> {
    hmac_sha256(salt, ikm)
}

/// One block of HKDF's expansion with empty info: `previous` is the block before it,
/// empty for the first.
pub open spec fn hkdf_block(prk: Seq<u8>, previous: Seq<u8>, index: u8) -> Seq<u8> {
    hmac_sha256(prk, previous + seq![index])
}

/// HKDF with two 32-byte outputs.
pub open spec fn hkdf_2_spec(chaining_key: Seq<u8>, ikm: Seq<u8>) -> (Seq<u8>, Seq<u8>) {
    let prk = hkdf_extract(chaining_key, ikm);
    let first = hkdf_block(prk, Seq::empty(), 1);
    let second = hkdf_block(prk, first, 2);
    (first, second)
}

/// HKDF with three 32-byte outputs.
pub open spec fn hkdf_3_spec(chaining_key: Seq<u8>, ikm: Seq<u8>) -> (Seq<u8>, Seq<u8>, Seq<u8>) {
    let prk = hkdf_extract(chaining_key, ikm);
    let first = hkdf_block(prk, Seq::empty(), 1);
    let second = hkdf_block(prk, first, 2);
    let third = hkdf_block(prk, second, 3);
    (first, second, third)
}

/// The 64-byte block that HMAC hashes first: the key XORed with `mask`, then `mask`
/// repeated.
fn padded_key(key: &[u8; 32], mask: u8) -> (block: Vec<u8>)
    ensures
        block@ == hmac_pad(key@, mask),
{
    let mut block: Vec<u8> = Vec::with_capacity(64);
    let mut i: usize = 0;
    while i < 64
        invariant
            i <= 64,
            block@.len() == i,
            forall|j: int| 0 <= j < i ==> block@[j] == hmac_pad(key@, mask)[j],
        decreases 64 - i,
    {
        if i < 32 {
            block.push(key[i] ^ mask);
        } else {
            block.push(mask);
        }
        i += 1;
    }
    block
}

/// HMAC-SHA256 of `data` under a 32-byte key.
pub fn hmac_hash(key: &[u8; 32], data: &[u8]) -> (mac: [u8; 32])
    ensures
        mac@ == hmac_sha256(key@, data@),
{
    let mut inner = padded_key(key, 0x36);
    inner.extend_from_slice(data);
    assert(inner@ == hmac_pad(key@, 0x36) + data@);
    let inner_digest = sha256_digest(inner.as_slice());
    let mut outer = padded_key(key, 0x5c);
    outer.extend_from_slice(inner_digest.as_slice());
    assert(outer@ == hmac_pad(key@, 0x5c) + inner_digest@);
    sha256_digest(outer.as_slice())
}

/// One more block of the expansion.
fn expand(prk: &[u8; 32], previous: &[u8], index: u8) -> (block: [u8; 32])
    ensures
        block@ == hkdf_block(prk@, previous@, index),
{
    let mut input: Vec<u8> = Vec::with_capacity(33);
    input.extend_from_slice(previous);
    input.push(index);
    assert(input@ =~= previous@ + seq![index]);
    hmac_hash(prk, input.as_slice())
}

/// HKDF-SHA256 with `chaining_key` as salt, `input_key_material` as input and empty
/// info, cut into two 32-byte outputs.
pub fn hkdf_2(chaining_key: &[u8; 32], input_key_material: &[u8]) -> (out: ([u8; 32], [u8; 32]))
    ensures
        (out.0@, out.1@) == hkdf_2_spec(chaining_key@, input_key_material@),
{
    let prk = hmac_hash(chaining_key, input_key_material);
    let none: [u8; 0] = [];
    let first = expand(&prk, none.as_slice(), 1);
    let second = expand(&prk, first.as_slice(), 2);
    (first, second)
}

/// HKDF-SHA256 as [`hkdf_2`], cut into three 32-byte outputs.
pub fn hkdf_3(chaining_key: &[u8; 32], input_key_material: &[u8]) -> (out: (
    [u8; 32],
    [u8; 32],
    [u8; 32],
))
    ensures
        (out.0@, out.1@, out.2@) == hkdf_3_spec(chaining_key@, input_key_material@),
{
    let prk = hmac_hash(chaining_key, input_key_material);
    let none: [u8; 0] = [];
    let first = expand(&prk, none.as_slice(), 1);
    let second = expand(&prk, first.as_slice(), 2);
    let third = expand(&prk, second.as_slice(), 3);
    (first, second, third)
}

} // verus!
