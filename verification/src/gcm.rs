//! AES-GCM primitive adapters: fixed-layout in-place transforms with a
//! detached tag. Ciphertext overwrites plaintext in the caller's buffer and
//! the tag lives in a separately sized caller buffer. The cipher itself is a
//! trusted building block; the adapters validate every untrusted length and
//! state the transform exactly.

use aes_gcm::aead::AeadInPlace;
use aes_gcm::{Aes128Gcm, Aes256Gcm, KeyInit, Nonce, Tag};
use vstd::prelude::*;

verus! {

use crate::crypto::{Error, KEY128_SIZE, KEY256_SIZE};

/// Byte length of the canonical AES-GCM initialization vector.
pub const GCM_IV_SIZE: usize = 12;

/// Byte length of the canonical AES-GCM authentication tag.
pub const GCM_TAG_SIZE: usize = 16;

/// Largest plaintext the primitive accepts for encryption, in bytes.
pub const GCM_P_MAX: u64 = 0x10_0000_0000;

/// Largest ciphertext the primitive accepts for decryption, in bytes.
pub const GCM_C_MAX: u64 = 0x10_0000_0010;

/// Largest associated data the primitive accepts, in bytes.
pub const GCM_A_MAX: u64 = 0x10_0000_0000;

/// Ciphertext that AES-128-GCM produces from a key, an IV and a plaintext.
pub uninterp spec fn aes128gcm_cipher(key: Seq<u8>, iv: Seq<u8>, pt: Seq<u8>) -> Seq<u8>;

/// Plaintext that AES-128-GCM recovers from a key, an IV and a ciphertext.
pub uninterp spec fn aes128gcm_plain(key: Seq<u8>, iv: Seq<u8>, ct: Seq<u8>) -> Seq<u8>;

/// Tag that AES-128-GCM computes over associated data and ciphertext.
pub uninterp spec fn aes128gcm_tag(key: Seq<u8>, iv: Seq<u8>, aad: Seq<u8>, ct: Seq<u8>) -> Seq<
    u8,
>;

/// Ciphertext that AES-256-GCM produces from a key, an IV and a plaintext.
pub uninterp spec fn aes256gcm_cipher(key: Seq<u8>, iv: Seq<u8>, pt: Seq<u8>) -> Seq<u8>;

/// Plaintext that AES-256-GCM recovers from a key, an IV and a ciphertext.
pub uninterp spec fn aes256gcm_plain(key: Seq<u8>, iv: Seq<u8>, ct: Seq<u8>) -> Seq<u8>;

/// Tag that AES-256-GCM computes over associated data and ciphertext.
pub uninterp spec fn aes256gcm_tag(key: Seq<u8>, iv: Seq<u8>, aad: Seq<u8>, ct: Seq<u8>) -> Seq<
    u8,
>;

/// `ct` and `tag` are exactly what AES-128-GCM produces for `pt` under
/// `key`/`iv`/`aad`, and decryption inverts `ct` back to `pt`.
pub open spec fn aes128gcm_sealed(
    key: Seq<u8>,
    iv: Seq<u8>,
    aad: Seq<u8>,
    pt: Seq<u8>,
    ct: Seq<u8>,
    tag: Seq<u8>,
) -> bool {
    &&& ct == aes128gcm_cipher(key, iv, pt)
    &&& ct.len() == pt.len()
    &&& tag == aes128gcm_tag(key, iv, aad, ct)
    &&& tag.len() == GCM_TAG_SIZE
    &&& aes128gcm_plain(key, iv, ct) == pt
}

/// `ct` and `tag` are exactly what AES-256-GCM produces for `pt` under
/// `key`/`iv`/`aad`, and decryption inverts `ct` back to `pt`.
pub open spec fn aes256gcm_sealed(
    key: Seq<u8>,
    iv: Seq<u8>,
    aad: Seq<u8>,
    pt: Seq<u8>,
    ct: Seq<u8>,
    tag: Seq<u8>,
) -> bool {
    &&& ct == aes256gcm_cipher(key, iv, pt)
    &&& ct.len() == pt.len()
    &&& tag == aes256gcm_tag(key, iv, aad, ct)
    &&& tag.len() == GCM_TAG_SIZE
    &&& aes256gcm_plain(key, iv, ct) == pt
}

/// `ct` and `tag` are what AES-GCM under the size selected by `key.len()`
/// produces for `pt`; false for unsupported key sizes.
pub open spec fn aes_gcm_sealed(
    key: Seq<u8>,
    iv: Seq<u8>,
    aad: Seq<u8>,
    pt: Seq<u8>,
    ct: Seq<u8>,
    tag: Seq<u8>,
) -> bool {
    if key.len() == KEY128_SIZE {
        aes128gcm_sealed(key, iv, aad, pt, ct, tag)
    } else if key.len() == KEY256_SIZE {
        aes256gcm_sealed(key, iv, aad, pt, ct, tag)
    } else {
        false
    }
}

/// The AES-GCM tag under the size selected by `key.len()`.
pub open spec fn aes_gcm_tag_of(key: Seq<u8>, iv: Seq<u8>, aad: Seq<u8>, ct: Seq<u8>) -> Seq<u8> {
    if key.len() == KEY128_SIZE {
        aes128gcm_tag(key, iv, aad, ct)
    } else {
        aes256gcm_tag(key, iv, aad, ct)
    }
}

/// The AES-GCM recovered plaintext under the size selected by `key.len()`.
pub open spec fn aes_gcm_plain_of(key: Seq<u8>, iv: Seq<u8>, ct: Seq<u8>) -> Seq<u8> {
    if key.len() == KEY128_SIZE {
        aes128gcm_plain(key, iv, ct)
    } else {
        aes256gcm_plain(key, iv, ct)
    }
}

/// Relies on `aes_gcm::Aes128Gcm::encrypt_in_place_detached`: encrypts the
/// buffer in place with a keystream determined by key and IV, then writes the
/// tag computed over associated data and ciphertext; fails exactly when the
/// buffer or the associated data exceed the primitive's length limits, leaving
/// both buffers unchanged. Decryption applies the same keystream, so it
/// inverts the ciphertext produced here.
#[verifier::external_body]
fn aes128gcm_seal(
    key: &[u8],
    iv: &[u8],
    aad: &[u8],
    buffer: &mut Vec<u8>,
    tag: &mut Vec<u8>,
) -> (r: Result<(), ()>)
    requires
        key@.len() == KEY128_SIZE,
        iv@.len() == GCM_IV_SIZE,
        old(tag)@.len() == GCM_TAG_SIZE,
    ensures
        final(buffer)@.len() == old(buffer)@.len(),
        final(tag)@.len() == old(tag)@.len(),
        (r is Ok) <==> (old(buffer)@.len() <= GCM_P_MAX && aad@.len() <= GCM_A_MAX),
        r is Ok ==> final(buffer)@ == aes128gcm_cipher(key@, iv@, old(buffer)@),
        r is Ok ==> aes128gcm_sealed(key@, iv@, aad@, old(buffer)@, final(buffer)@, final(tag)@),
        r is Err ==> final(buffer)@ == old(buffer)@ && final(tag)@ == old(tag)@,
{
    let cipher = Aes128Gcm::new_from_slice(key).expect("key length is checked by the caller");
    match cipher.encrypt_in_place_detached(Nonce::from_slice(iv), aad, buffer.as_mut_slice()) {
        Ok(t) => {
            tag.as_mut_slice().copy_from_slice(t.as_slice());
            Ok(())
        },
        Err(_) => Err(()),
    }
}

/// Relies on `aes_gcm::Aes128Gcm::decrypt_in_place_detached`: recomputes the
/// tag over associated data and ciphertext and compares it in constant time
/// with the supplied tag before any decryption; on a match it decrypts the
/// buffer in place, otherwise it fails with the buffer unchanged.
#[verifier::external_body]
fn aes128gcm_open(key: &[u8], iv: &[u8], aad: &[u8], buffer: &mut Vec<u8>, tag: &[u8]) -> (r:
    Result<(), ()>)
    requires
        key@.len() == KEY128_SIZE,
        iv@.len() == GCM_IV_SIZE,
        tag@.len() == GCM_TAG_SIZE,
    ensures
        final(buffer)@.len() == old(buffer)@.len(),
        (r is Ok) <==> (old(buffer)@.len() <= GCM_C_MAX && aad@.len() <= GCM_A_MAX && tag@
            == aes128gcm_tag(key@, iv@, aad@, old(buffer)@)),
        r is Ok ==> final(buffer)@ == aes128gcm_plain(key@, iv@, old(buffer)@),
        r is Err ==> final(buffer)@ == old(buffer)@,
{
    let cipher = Aes128Gcm::new_from_slice(key).expect("key length is checked by the caller");
    match cipher.decrypt_in_place_detached(
        Nonce::from_slice(iv),
        aad,
        buffer.as_mut_slice(),
        Tag::from_slice(tag),
    ) {
        Ok(()) => Ok(()),
        Err(_) => Err(()),
    }
}

/// Relies on `aes_gcm::Aes256Gcm::encrypt_in_place_detached`; same contract
/// shape as the AES-128 wrapper above.
#[verifier::external_body]
fn aes256gcm_seal(
    key: &[u8],
    iv: &[u8],
    aad: &[u8],
    buffer: &mut Vec<u8>,
    tag: &mut Vec<u8>,
) -> (r: Result<(), ()>)
    requires
        key@.len() == KEY256_SIZE,
        iv@.len() == GCM_IV_SIZE,
        old(tag)@.len() == GCM_TAG_SIZE,
    ensures
        final(buffer)@.len() == old(buffer)@.len(),
        final(tag)@.len() == old(tag)@.len(),
        (r is Ok) <==> (old(buffer)@.len() <= GCM_P_MAX && aad@.len() <= GCM_A_MAX),
        r is Ok ==> final(buffer)@ == aes256gcm_cipher(key@, iv@, old(buffer)@),
        r is Ok ==> aes256gcm_sealed(key@, iv@, aad@, old(buffer)@, final(buffer)@, final(tag)@),
        r is Err ==> final(buffer)@ == old(buffer)@ && final(tag)@ == old(tag)@,
{
    let cipher = Aes256Gcm::new_from_slice(key).expect("key length is checked by the caller");
    match cipher.encrypt_in_place_detached(Nonce::from_slice(iv), aad, buffer.as_mut_slice()) {
        Ok(t) => {
            tag.as_mut_slice().copy_from_slice(t.as_slice());
            Ok(())
        },
        Err(_) => Err(()),
    }
}

/// Relies on `aes_gcm::Aes256Gcm::decrypt_in_place_detached`; same contract
/// shape as the AES-128 wrapper above.
#[verifier::external_body]
fn aes256gcm_open(key: &[u8], iv: &[u8], aad: &[u8], buffer: &mut Vec<u8>, tag: &[u8]) -> (r:
    Result<(), ()>)
    requires
        key@.len() == KEY256_SIZE,
        iv@.len() == GCM_IV_SIZE,
        tag@.len() == GCM_TAG_SIZE,
    ensures
        final(buffer)@.len() == old(buffer)@.len(),
        (r is Ok) <==> (old(buffer)@.len() <= GCM_C_MAX && aad@.len() <= GCM_A_MAX && tag@
            == aes256gcm_tag(key@, iv@, aad@, old(buffer)@)),
        r is Ok ==> final(buffer)@ == aes256gcm_plain(key@, iv@, old(buffer)@),
        r is Err ==> final(buffer)@ == old(buffer)@,
{
    let cipher = Aes256Gcm::new_from_slice(key).expect("key length is checked by the caller");
    match cipher.decrypt_in_place_detached(
        Nonce::from_slice(iv),
        aad,
        buffer.as_mut_slice(),
        Tag::from_slice(tag),
    ) {
        Ok(()) => Ok(()),
        Err(_) => Err(()),
    }
}

/// Exact outcome of the in-place detached-tag AES-128-GCM encryption adapter.
pub open spec fn aes128gcm_encrypt_result(
    key: Seq<u8>,
    iv: Seq<u8>,
    aad: Seq<u8>,
    pt: Seq<u8>,
    tag0: Seq<u8>,
    buffer1: Seq<u8>,
    tag1: Seq<u8>,
    r: Result<(), Error>,
) -> bool {
    if key.len() != KEY128_SIZE {
        r == Err::<(), Error>(Error::InvalidSymmetricKeySize) && buffer1 == pt && tag1 == tag0
    } else if iv.len() != GCM_IV_SIZE {
        r == Err::<(), Error>(Error::InvalidIvSize) && buffer1 == pt && tag1 == tag0
    } else if tag0.len() != GCM_TAG_SIZE {
        r == Err::<(), Error>(Error::InvalidTagSize) && buffer1 == pt && tag1 == tag0
    } else if pt.len() > GCM_P_MAX || aad.len() > GCM_A_MAX {
        r == Err::<(), Error>(Error::Encrypt) && buffer1 == pt && tag1 == tag0
    } else {
        r == Ok::<(), Error>(()) && aes128gcm_sealed(key, iv, aad, pt, buffer1, tag1)
    }
}

/// AES-128-GCM in-place encryption with a detached tag.
pub fn aes128gcm_encrypt_in_place_detached(
    key: &[u8],
    iv: &[u8],
    aad: &[u8],
    buffer: &mut Vec<u8>,
    tag: &mut Vec<u8>,
) -> (r: Result<(), Error>)
    ensures
        final(buffer)@.len() == old(buffer)@.len(),
        final(tag)@.len() == old(tag)@.len(),
        aes128gcm_encrypt_result(
            key@,
            iv@,
            aad@,
            old(buffer)@,
            old(tag)@,
            final(buffer)@,
            final(tag)@,
            r,
        ),
{
    if key.len() != KEY128_SIZE {
        return Err(Error::InvalidSymmetricKeySize);
    }
    if iv.len() != GCM_IV_SIZE {
        return Err(Error::InvalidIvSize);
    }
    if tag.len() != GCM_TAG_SIZE {
        return Err(Error::InvalidTagSize);
    }
    match aes128gcm_seal(key, iv, aad, buffer, tag) {
        Ok(()) => Ok(()),
        Err(_) => Err(Error::Encrypt),
    }
}

/// Exact outcome of the in-place detached-tag AES-128-GCM decryption adapter.
pub open spec fn aes128gcm_decrypt_result(
    key: Seq<u8>,
    iv: Seq<u8>,
    aad: Seq<u8>,
    ct: Seq<u8>,
    tag: Seq<u8>,
    buffer1: Seq<u8>,
    r: Result<(), Error>,
) -> bool {
    if key.len() != KEY128_SIZE {
        r == Err::<(), Error>(Error::InvalidSymmetricKeySize) && buffer1 == ct
    } else if iv.len() != GCM_IV_SIZE {
        r == Err::<(), Error>(Error::InvalidIvSize) && buffer1 == ct
    } else if tag.len() != GCM_TAG_SIZE {
        r == Err::<(), Error>(Error::InvalidTagSize) && buffer1 == ct
    } else {
        &&& (r is Ok <==> ct.len() <= GCM_C_MAX && aad.len() <= GCM_A_MAX && tag
            == aes128gcm_tag(key, iv, aad, ct))
        &&& (r is Ok ==> buffer1 == aes128gcm_plain(key, iv, ct))
        &&& (r is Err ==> r == Err::<(), Error>(Error::Decrypt) && buffer1 == ct)
    }
}

/// AES-128-GCM in-place decryption, verifying the detached tag.
pub fn aes128gcm_decrypt_in_place_detached(
    key: &[u8],
    iv: &[u8],
    aad: &[u8],
    buffer: &mut Vec<u8>,
    tag: &[u8],
) -> (r: Result<(), Error>)
    ensures
        final(buffer)@.len() == old(buffer)@.len(),
        aes128gcm_decrypt_result(key@, iv@, aad@, old(buffer)@, tag@, final(buffer)@, r),
{
    if key.len() != KEY128_SIZE {
        return Err(Error::InvalidSymmetricKeySize);
    }
    if iv.len() != GCM_IV_SIZE {
        return Err(Error::InvalidIvSize);
    }
    if tag.len() != GCM_TAG_SIZE {
        return Err(Error::InvalidTagSize);
    }
    match aes128gcm_open(key, iv, aad, buffer, tag) {
        Ok(()) => Ok(()),
        Err(_) => Err(Error::Decrypt),
    }
}

/// Exact outcome of the in-place detached-tag AES-256-GCM encryption adapter.
pub open spec fn aes256gcm_encrypt_result(
    key: Seq<u8>,
    iv: Seq<u8>,
    aad: Seq<u8>,
    pt: Seq<u8>,
    tag0: Seq<u8>,
    buffer1: Seq<u8>,
    tag1: Seq<u8>,
    r: Result<(), Error>,
) -> bool {
    if key.len() != KEY256_SIZE {
        r == Err::<(), Error>(Error::InvalidSymmetricKeySize) && buffer1 == pt && tag1 == tag0
    } else if iv.len() != GCM_IV_SIZE {
        r == Err::<(), Error>(Error::InvalidIvSize) && buffer1 == pt && tag1 == tag0
    } else if tag0.len() != GCM_TAG_SIZE {
        r == Err::<(), Error>(Error::InvalidTagSize) && buffer1 == pt && tag1 == tag0
    } else if pt.len() > GCM_P_MAX || aad.len() > GCM_A_MAX {
        r == Err::<(), Error>(Error::Encrypt) && buffer1 == pt && tag1 == tag0
    } else {
        r == Ok::<(), Error>(()) && aes256gcm_sealed(key, iv, aad, pt, buffer1, tag1)
    }
}

/// AES-256-GCM in-place encryption with a detached tag.
pub fn aes256gcm_encrypt_in_place_detached(
    key: &[u8],
    iv: &[u8],
    aad: &[u8],
    buffer: &mut Vec<u8>,
    tag: &mut Vec<u8>,
) -> (r: Result<(), Error>)
    ensures
        final(buffer)@.len() == old(buffer)@.len(),
        final(tag)@.len() == old(tag)@.len(),
        aes256gcm_encrypt_result(
            key@,
            iv@,
            aad@,
            old(buffer)@,
            old(tag)@,
            final(buffer)@,
            final(tag)@,
            r,
        ),
{
    if key.len() != KEY256_SIZE {
        return Err(Error::InvalidSymmetricKeySize);
    }
    if iv.len() != GCM_IV_SIZE {
        return Err(Error::InvalidIvSize);
    }
    if tag.len() != GCM_TAG_SIZE {
        return Err(Error::InvalidTagSize);
    }
    match aes256gcm_seal(key, iv, aad, buffer, tag) {
        Ok(()) => Ok(()),
        Err(_) => Err(Error::Encrypt),
    }
}

/// Exact outcome of the in-place detached-tag AES-256-GCM decryption adapter.
pub open spec fn aes256gcm_decrypt_result(
    key: Seq<u8>,
    iv: Seq<u8>,
    aad: Seq<u8>,
    ct: Seq<u8>,
    tag: Seq<u8>,
    buffer1: Seq<u8>,
    r: Result<(), Error>,
) -> bool {
    if key.len() != KEY256_SIZE {
        r == Err::<(), Error>(Error::InvalidSymmetricKeySize) && buffer1 == ct
    } else if iv.len() != GCM_IV_SIZE {
        r == Err::<(), Error>(Error::InvalidIvSize) && buffer1 == ct
    } else if tag.len() != GCM_TAG_SIZE {
        r == Err::<(), Error>(Error::InvalidTagSize) && buffer1 == ct
    } else {
        &&& (r is Ok <==> ct.len() <= GCM_C_MAX && aad.len() <= GCM_A_MAX && tag
            == aes256gcm_tag(key, iv, aad, ct))
        &&& (r is Ok ==> buffer1 == aes256gcm_plain(key, iv, ct))
        &&& (r is Err ==> r == Err::<(), Error>(Error::Decrypt) && buffer1 == ct)
    }
}

/// AES-256-GCM in-place decryption, verifying the detached tag.
pub fn aes256gcm_decrypt_in_place_detached(
    key: &[u8],
    iv: &[u8],
    aad: &[u8],
    buffer: &mut Vec<u8>,
    tag: &[u8],
) -> (r: Result<(), Error>)
    ensures
        final(buffer)@.len() == old(buffer)@.len(),
        aes256gcm_decrypt_result(key@, iv@, aad@, old(buffer)@, tag@, final(buffer)@, r),
{
    if key.len() != KEY256_SIZE {
        return Err(Error::InvalidSymmetricKeySize);
    }
    if iv.len() != GCM_IV_SIZE {
        return Err(Error::InvalidIvSize);
    }
    if tag.len() != GCM_TAG_SIZE {
        return Err(Error::InvalidTagSize);
    }
    match aes256gcm_open(key, iv, aad, buffer, tag) {
        Ok(()) => Ok(()),
        Err(_) => Err(Error::Decrypt),
    }
}

} // verus!
