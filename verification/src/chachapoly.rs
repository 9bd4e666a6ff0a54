//! ChaCha20-Poly1305 primitive adapters: in-place AEAD with a detached tag,
//! one fixed key size. The primitive is a trusted building block; the
//! adapters validate every untrusted length and state the transform exactly.

use chacha20poly1305::aead::AeadInPlace;
use chacha20poly1305::{ChaCha20Poly1305, KeyInit, Nonce, Tag};
use vstd::prelude::*;

verus! {

use crate::crypto::Error;

/// Byte length of the ChaCha20-Poly1305 key.
pub const CHACHAPOLY_KEY_SIZE: usize = 32;

/// Byte length of the canonical ChaCha20-Poly1305 nonce.
pub const CHACHAPOLY_NONCE_SIZE: usize = 12;

/// Byte length of the Poly1305 authentication tag.
pub const CHACHAPOLY_TAG_SIZE: usize = 16;

/// Smallest message length the primitive refuses, in bytes.
pub const CHACHAPOLY_MSG_LIMIT: u64 = 0x3F_FFFF_FFC0;

/// Ciphertext that ChaCha20 produces from a key, a nonce and a plaintext.
pub uninterp spec fn chachapoly_cipher(key: Seq<u8>, nonce: Seq<u8>, pt: Seq<u8>) -> Seq<u8>;

/// Plaintext that ChaCha20 recovers from a key, a nonce and a ciphertext.
pub uninterp spec fn chachapoly_plain(key: Seq<u8>, nonce: Seq<u8>, ct: Seq<u8>) -> Seq<u8>;

/// Tag that Poly1305 computes over associated data and ciphertext.
pub uninterp spec fn chachapoly_tag(key: Seq<u8>, nonce: Seq<u8>, aad: Seq<u8>, ct: Seq<u8>) -> Seq<
    u8,
>;

/// `ct` and `tag` are exactly what ChaCha20-Poly1305 produces for `pt` under
/// `key`/`nonce`/`aad`, and decryption inverts `ct` back to `pt`.
pub open spec fn chachapoly_sealed(
    key: Seq<u8>,
    nonce: Seq<u8>,
    aad: Seq<u8>,
    pt: Seq<u8>,
    ct: Seq<u8>,
    tag: Seq<u8>,
) -> bool {
    &&& ct == chachapoly_cipher(key, nonce, pt)
    &&& ct.len() == pt.len()
    &&& tag == chachapoly_tag(key, nonce, aad, ct)
    &&& tag.len() == CHACHAPOLY_TAG_SIZE
    &&& chachapoly_plain(key, nonce, ct) == pt
}

/// Relies on `chacha20poly1305::ChaCha20Poly1305::encrypt_in_place_detached`:
/// encrypts the buffer in place with the ChaCha20 keystream and returns the
/// Poly1305 tag over associated data and ciphertext; fails exactly when the
/// message reaches the primitive's block limit, leaving the buffer unchanged.
/// Decryption applies the same keystream, so it inverts this ciphertext.
#[verifier::external_body]
fn chachapoly_seal(key: &[u8], nonce: &[u8], aad: &[u8], buffer: &mut Vec<u8>) -> (r: Result<
    Vec<u8>,
    (),
>)
    requires
        key@.len() == CHACHAPOLY_KEY_SIZE,
        nonce@.len() == CHACHAPOLY_NONCE_SIZE,
    ensures
        final(buffer)@.len() == old(buffer)@.len(),
        (r is Ok) <==> (old(buffer)@.len() < CHACHAPOLY_MSG_LIMIT),
        r matches Ok(t) ==> final(buffer)@ == chachapoly_cipher(key@, nonce@, old(buffer)@)
            && t@ == chachapoly_tag(key@, nonce@, aad@, final(buffer)@) && t@.len()
            == CHACHAPOLY_TAG_SIZE && chachapoly_plain(
            key@,
            nonce@,
            chachapoly_cipher(key@, nonce@, old(buffer)@),
        ) == old(buffer)@,
        r is Err ==> final(buffer)@ == old(buffer)@,
{
    let cipher = ChaCha20Poly1305::new_from_slice(key).expect(
        "key length is checked by the caller",
    );
    match cipher.encrypt_in_place_detached(Nonce::from_slice(nonce), aad, buffer.as_mut_slice()) {
        Ok(t) => Ok(t.as_slice().to_vec()),
        Err(_) => Err(()),
    }
}

/// Relies on `chacha20poly1305::ChaCha20Poly1305::decrypt_in_place_detached`:
/// recomputes the Poly1305 tag over associated data and ciphertext and
/// compares it in constant time with the supplied tag before any decryption;
/// on a match it decrypts the buffer in place, otherwise it fails with the
/// buffer unchanged.
#[verifier::external_body]
fn chachapoly_open(key: &[u8], nonce: &[u8], aad: &[u8], buffer: &mut Vec<u8>, tag: &[u8]) -> (r:
    Result<(), ()>)
    requires
        key@.len() == CHACHAPOLY_KEY_SIZE,
        nonce@.len() == CHACHAPOLY_NONCE_SIZE,
        tag@.len() == CHACHAPOLY_TAG_SIZE,
    ensures
        final(buffer)@.len() == old(buffer)@.len(),
        (r is Ok) <==> (old(buffer)@.len() < CHACHAPOLY_MSG_LIMIT && tag@ == chachapoly_tag(
            key@,
            nonce@,
            aad@,
            old(buffer)@,
        )),
        r is Ok ==> final(buffer)@ == chachapoly_plain(key@, nonce@, old(buffer)@),
        r is Err ==> final(buffer)@ == old(buffer)@,
{
    let cipher = ChaCha20Poly1305::new_from_slice(key).expect(
        "key length is checked by the caller",
    );
    match cipher.decrypt_in_place_detached(
        Nonce::from_slice(nonce),
        aad,
        buffer.as_mut_slice(),
        Tag::from_slice(tag),
    ) {
        Ok(()) => Ok(()),
        Err(_) => Err(()),
    }
}

/// Exact outcome of the in-place detached-tag ChaCha20-Poly1305 encryption
/// adapter, which returns the computed tag on success.
pub open spec fn chachapoly_encrypt_result(
    key: Seq<u8>,
    nonce: Seq<u8>,
    aad: Seq<u8>,
    pt: Seq<u8>,
    buffer1: Seq<u8>,
    r: Result<Vec<u8>, Error>,
) -> bool {
    if key.len() != CHACHAPOLY_KEY_SIZE {
        r == Err::<Vec<u8>, Error>(Error::InvalidSymmetricKeySize) && buffer1 == pt
    } else if nonce.len() != CHACHAPOLY_NONCE_SIZE {
        r == Err::<Vec<u8>, Error>(Error::InvalidNonceSize) && buffer1 == pt
    } else if pt.len() >= CHACHAPOLY_MSG_LIMIT {
        r == Err::<Vec<u8>, Error>(Error::Encrypt) && buffer1 == pt
    } else {
        r matches Ok(t) && chachapoly_sealed(key, nonce, aad, pt, buffer1, t@)
    }
}

/// ChaCha20-Poly1305 in-place encryption; returns the detached tag.
pub fn encrypt_in_place_detached(key: &[u8], nonce: &[u8], aad: &[u8], buffer: &mut Vec<u8>) -> (r:
    Result<Vec<u8>, Error>)
    ensures
        final(buffer)@.len() == old(buffer)@.len(),
        chachapoly_encrypt_result(key@, nonce@, aad@, old(buffer)@, final(buffer)@, r),
{
    if key.len() != CHACHAPOLY_KEY_SIZE {
        return Err(Error::InvalidSymmetricKeySize);
    }
    if nonce.len() != CHACHAPOLY_NONCE_SIZE {
        return Err(Error::InvalidNonceSize);
    }
    match chachapoly_seal(key, nonce, aad, buffer) {
        Ok(t) => Ok(t),
        Err(_) => Err(Error::Encrypt),
    }
}

/// Exact outcome of the in-place detached-tag ChaCha20-Poly1305 decryption
/// adapter.
pub open spec fn chachapoly_decrypt_result(
    key: Seq<u8>,
    nonce: Seq<u8>,
    aad: Seq<u8>,
    ct: Seq<u8>,
    tag: Seq<u8>,
    buffer1: Seq<u8>,
    r: Result<(), Error>,
) -> bool {
    if key.len() != CHACHAPOLY_KEY_SIZE {
        r == Err::<(), Error>(Error::InvalidSymmetricKeySize) && buffer1 == ct
    } else if nonce.len() != CHACHAPOLY_NONCE_SIZE {
        r == Err::<(), Error>(Error::InvalidNonceSize) && buffer1 == ct
    } else if tag.len() != CHACHAPOLY_TAG_SIZE {
        r == Err::<(), Error>(Error::InvalidTagSize) && buffer1 == ct
    } else {
        &&& (r is Ok <==> ct.len() < CHACHAPOLY_MSG_LIMIT && tag == chachapoly_tag(
            key,
            nonce,
            aad,
            ct,
        ))
        &&& (r is Ok ==> buffer1 == chachapoly_plain(key, nonce, ct))
        &&& (r is Err ==> r == Err::<(), Error>(Error::Decrypt) && buffer1 == ct)
    }
}

/// ChaCha20-Poly1305 in-place decryption, verifying the detached tag with the
/// primitive's own constant-time comparison.
pub fn decrypt_in_place_detached(
    key: &[u8],
    nonce: &[u8],
    aad: &[u8],
    buffer: &mut Vec<u8>,
    tag: &[u8],
) -> (r: Result<(), Error>)
    ensures
        final(buffer)@.len() == old(buffer)@.len(),
        chachapoly_decrypt_result(key@, nonce@, aad@, old(buffer)@, tag@, final(buffer)@, r),
{
    if key.len() != CHACHAPOLY_KEY_SIZE {
        return Err(Error::InvalidSymmetricKeySize);
    }
    if nonce.len() != CHACHAPOLY_NONCE_SIZE {
        return Err(Error::InvalidNonceSize);
    }
    if tag.len() != CHACHAPOLY_TAG_SIZE {
        return Err(Error::InvalidTagSize);
    }
    match chachapoly_open(key, nonce, aad, buffer, tag) {
        Ok(()) => Ok(()),
        Err(_) => Err(Error::Decrypt),
    }
}

} // verus!
