//! The AES worker: turns one inbound AES-GCM or AES-CBC job into exactly one
//! outbound response. Internal-key requests resolve their key in the store
//! under a single export; external-key requests dispatch purely on the
//! supplied key length. Every error is scoped to its request, and the local
//! key copy is zeroed before a request's processing ends.

use vstd::prelude::*;

verus! {

use crate::cbc_mode;
use crate::cbc_mode::{aes_cbc_cipher, aes_cbc_plain, pkcs7_pad, pkcs7_unpad, CBC_IV_SIZE};
use crate::crypto;
use crate::crypto::{KEY128_SIZE, KEY192_SIZE, KEY256_SIZE};
use crate::gcm;
use crate::gcm::{
    aes_gcm_plain_of, aes_gcm_sealed, aes_gcm_tag_of, GCM_A_MAX, GCM_C_MAX, GCM_IV_SIZE,
    GCM_P_MAX, GCM_TAG_SIZE,
};
use crate::jobs;
use crate::jobs::{correlated, error_response, ClientId, Request, RequestId, Response};
use crate::keystore;
use crate::keystore::{KeyId, KeyInfo, KeyStore, KeyType, MAX_SYMMETRIC_KEY_SIZE};
use crate::secret::{all_zero, zeroed_buffer, zeroize_key_buffer};
use vstd::slice::slice_subrange;

/// `key` has one of the supported AES key lengths.
pub open spec fn supported_aes_key(key: Seq<u8>) -> bool {
    key.len() == KEY128_SIZE || key.len() == KEY192_SIZE || key.len() == KEY256_SIZE
}

/// Outcome of a GCM encryption once the key bytes are resolved: the exact
/// error for each rejected input, or the sealed buffer and tag.
pub open spec fn gcm_encrypt_keyed_outcome(
    c: ClientId,
    q: RequestId,
    key: Seq<u8>,
    iv: Seq<u8>,
    pt: Seq<u8>,
    aad: Seq<u8>,
    tag0: Seq<u8>,
    r: Response,
) -> bool {
    if key.len() != KEY128_SIZE && key.len() != KEY256_SIZE {
        r == error_response(c, q, jobs::Error::Crypto(crypto::Error::InvalidSymmetricKeySize))
    } else if iv.len() != GCM_IV_SIZE {
        r == error_response(c, q, jobs::Error::Crypto(crypto::Error::InvalidIvSize))
    } else if tag0.len() != GCM_TAG_SIZE {
        r == error_response(c, q, jobs::Error::Crypto(crypto::Error::InvalidTagSize))
    } else if pt.len() > GCM_P_MAX || aad.len() > GCM_A_MAX {
        r == error_response(c, q, jobs::Error::Crypto(crypto::Error::Encrypt))
    } else {
        r matches Response::EncryptAesGcm { client_id, request_id, buffer, tag } && client_id == c
            && request_id == q && aes_gcm_sealed(key, iv, aad, pt, buffer@, tag@)
    }
}

/// Outcome of a GCM decryption once the key bytes are resolved.
pub open spec fn gcm_decrypt_keyed_outcome(
    c: ClientId,
    q: RequestId,
    key: Seq<u8>,
    iv: Seq<u8>,
    ct: Seq<u8>,
    aad: Seq<u8>,
    tag: Seq<u8>,
    r: Response,
) -> bool {
    if key.len() != KEY128_SIZE && key.len() != KEY256_SIZE {
        r == error_response(c, q, jobs::Error::Crypto(crypto::Error::InvalidSymmetricKeySize))
    } else if iv.len() != GCM_IV_SIZE {
        r == error_response(c, q, jobs::Error::Crypto(crypto::Error::InvalidIvSize))
    } else if tag.len() != GCM_TAG_SIZE {
        r == error_response(c, q, jobs::Error::Crypto(crypto::Error::InvalidTagSize))
    } else if ct.len() <= GCM_C_MAX && aad.len() <= GCM_A_MAX && tag == aes_gcm_tag_of(
        key,
        iv,
        aad,
        ct,
    ) {
        r matches Response::DecryptAesGcm { client_id, request_id, buffer } && client_id == c
            && request_id == q && buffer@ == aes_gcm_plain_of(key, iv, ct) && buffer@.len()
            == ct.len()
    } else {
        r == error_response(c, q, jobs::Error::Crypto(crypto::Error::Decrypt))
    }
}

/// Outcome of a CBC encryption once the key bytes are resolved: the response
/// buffer is the caller's buffer truncated to the exact ciphertext length.
pub open spec fn cbc_encrypt_keyed_outcome(
    c: ClientId,
    q: RequestId,
    key: Seq<u8>,
    iv: Seq<u8>,
    pt0: Seq<u8>,
    plaintext_size: int,
    r: Response,
) -> bool {
    if !supported_aes_key(key) {
        r == error_response(c, q, jobs::Error::Crypto(crypto::Error::InvalidSymmetricKeySize))
    } else if iv.len() != CBC_IV_SIZE {
        r == error_response(c, q, jobs::Error::Crypto(crypto::Error::InvalidIvSize))
    } else if pt0.len() < plaintext_size + (16 - plaintext_size % 16) {
        r == error_response(c, q, jobs::Error::Crypto(crypto::Error::InvalidBufferSize))
    } else {
        r matches Response::EncryptAesCbc { client_id, request_id, buffer } && client_id == c
            && request_id == q && buffer@.len() == plaintext_size + (16 - plaintext_size % 16)
            && buffer@ == aes_cbc_cipher(key, iv, pkcs7_pad(pt0.take(plaintext_size)))
            && aes_cbc_plain(key, iv, buffer@) == pkcs7_pad(pt0.take(plaintext_size))
    }
}

/// Outcome of a CBC decryption once the key bytes are resolved: the response
/// is the decrypted buffer truncated to the unpadded payload, a true prefix
/// of the caller's storage.
pub open spec fn cbc_decrypt_keyed_outcome(
    c: ClientId,
    q: RequestId,
    key: Seq<u8>,
    iv: Seq<u8>,
    ct0: Seq<u8>,
    r: Response,
) -> bool {
    if !supported_aes_key(key) {
        r == error_response(c, q, jobs::Error::Crypto(crypto::Error::InvalidSymmetricKeySize))
    } else if iv.len() != CBC_IV_SIZE {
        r == error_response(c, q, jobs::Error::Crypto(crypto::Error::InvalidIvSize))
    } else if ct0.len() % 16 != 0 {
        r == error_response(c, q, jobs::Error::Crypto(crypto::Error::InvalidBufferSize))
    } else {
        match pkcs7_unpad(aes_cbc_plain(key, iv, ct0)) {
            Some(p) => r matches Response::DecryptAesCbc { client_id, request_id, plaintext }
                && client_id == c && request_id == q && plaintext@ == p && plaintext@.len()
                <= ct0.len(),
            None => r == error_response(
                c,
                q,
                jobs::Error::Crypto(crypto::Error::InvalidPadding),
            ),
        }
    }
}

/// Outcome of a GCM operation dispatched on stored-key metadata: any key type
/// outside the GCM set is rejected before the key bytes are looked at.
pub open spec fn gcm_encrypt_with_key_outcome(
    c: ClientId,
    q: RequestId,
    key: Seq<u8>,
    ty: KeyType,
    iv: Seq<u8>,
    pt: Seq<u8>,
    aad: Seq<u8>,
    tag0: Seq<u8>,
    r: Response,
) -> bool {
    if ty != KeyType::Symmetric128Bits && ty != KeyType::Symmetric256Bits {
        r == error_response(c, q, jobs::Error::KeyStore(keystore::Error::InvalidKeyType))
    } else if key.len() != ty.spec_key_size() {
        r == error_response(c, q, jobs::Error::Crypto(crypto::Error::InvalidSymmetricKeySize))
    } else {
        gcm_encrypt_keyed_outcome(c, q, key, iv, pt, aad, tag0, r)
    }
}

/// Outcome of a GCM decryption dispatched on stored-key metadata.
pub open spec fn gcm_decrypt_with_key_outcome(
    c: ClientId,
    q: RequestId,
    key: Seq<u8>,
    ty: KeyType,
    iv: Seq<u8>,
    ct: Seq<u8>,
    aad: Seq<u8>,
    tag: Seq<u8>,
    r: Response,
) -> bool {
    if ty != KeyType::Symmetric128Bits && ty != KeyType::Symmetric256Bits {
        r == error_response(c, q, jobs::Error::KeyStore(keystore::Error::InvalidKeyType))
    } else if key.len() != ty.spec_key_size() {
        r == error_response(c, q, jobs::Error::Crypto(crypto::Error::InvalidSymmetricKeySize))
    } else {
        gcm_decrypt_keyed_outcome(c, q, key, iv, ct, aad, tag, r)
    }
}

/// Outcome of a CBC encryption dispatched on stored-key metadata: all three
/// symmetric key types are in the CBC set.
pub open spec fn cbc_encrypt_with_key_outcome(
    c: ClientId,
    q: RequestId,
    key: Seq<u8>,
    ty: KeyType,
    iv: Seq<u8>,
    pt0: Seq<u8>,
    plaintext_size: int,
    r: Response,
) -> bool {
    if !ty.is_symmetric() {
        r == error_response(c, q, jobs::Error::KeyStore(keystore::Error::InvalidKeyType))
    } else if key.len() != ty.spec_key_size() {
        r == error_response(c, q, jobs::Error::Crypto(crypto::Error::InvalidSymmetricKeySize))
    } else {
        cbc_encrypt_keyed_outcome(c, q, key, iv, pt0, plaintext_size, r)
    }
}

/// Outcome of a CBC decryption dispatched on stored-key metadata.
pub open spec fn cbc_decrypt_with_key_outcome(
    c: ClientId,
    q: RequestId,
    key: Seq<u8>,
    ty: KeyType,
    iv: Seq<u8>,
    ct0: Seq<u8>,
    r: Response,
) -> bool {
    if !ty.is_symmetric() {
        r == error_response(c, q, jobs::Error::KeyStore(keystore::Error::InvalidKeyType))
    } else if key.len() != ty.spec_key_size() {
        r == error_response(c, q, jobs::Error::Crypto(crypto::Error::InvalidSymmetricKeySize))
    } else {
        cbc_decrypt_keyed_outcome(c, q, key, iv, ct0, r)
    }
}

/// GCM encryption for a key resolved from the store, dispatching on the
/// stored key type; GCM is offered only for the 128- and 256-bit types.
pub fn encrypt_aes_gcm_with_key(
    client_id: ClientId,
    request_id: RequestId,
    key: &[u8],
    ty: KeyType,
    iv: &[u8],
    buffer: Vec<u8>,
    aad: &[u8],
    tag: Vec<u8>,
) -> (r: Response)
    ensures
        gcm_encrypt_with_key_outcome(client_id, request_id, key@, ty, iv@, buffer@, aad@, tag@, r),
{
    let mut buffer = buffer;
    let mut tag = tag;
    let result = match ty {
        KeyType::Symmetric128Bits => gcm::aes128gcm_encrypt_in_place_detached(
            key,
            iv,
            aad,
            &mut buffer,
            &mut tag,
        ),
        KeyType::Symmetric256Bits => gcm::aes256gcm_encrypt_in_place_detached(
            key,
            iv,
            aad,
            &mut buffer,
            &mut tag,
        ),
        _ => {
            return Response::Error {
                client_id,
                request_id,
                error: jobs::Error::KeyStore(keystore::Error::InvalidKeyType),
            };
        },
    };
    match result {
        Err(e) => Response::Error { client_id, request_id, error: jobs::Error::Crypto(e) },
        Ok(()) => Response::EncryptAesGcm { client_id, request_id, buffer, tag },
    }
}

/// GCM decryption for a key resolved from the store.
pub fn decrypt_aes_gcm_with_key(
    client_id: ClientId,
    request_id: RequestId,
    key: &[u8],
    ty: KeyType,
    iv: &[u8],
    buffer: Vec<u8>,
    aad: &[u8],
    tag: &[u8],
) -> (r: Response)
    ensures
        gcm_decrypt_with_key_outcome(client_id, request_id, key@, ty, iv@, buffer@, aad@, tag@, r),
{
    let mut buffer = buffer;
    let result = match ty {
        KeyType::Symmetric128Bits => gcm::aes128gcm_decrypt_in_place_detached(
            key,
            iv,
            aad,
            &mut buffer,
            tag,
        ),
        KeyType::Symmetric256Bits => gcm::aes256gcm_decrypt_in_place_detached(
            key,
            iv,
            aad,
            &mut buffer,
            tag,
        ),
        _ => {
            return Response::Error {
                client_id,
                request_id,
                error: jobs::Error::KeyStore(keystore::Error::InvalidKeyType),
            };
        },
    };
    match result {
        Err(e) => Response::Error { client_id, request_id, error: jobs::Error::Crypto(e) },
        Ok(()) => Response::DecryptAesGcm { client_id, request_id, buffer },
    }
}

/// CBC encryption for a key resolved from the store, dispatching on the
/// stored key type; all three symmetric sizes are offered.
pub fn encrypt_aes_cbc_with_key(
    client_id: ClientId,
    request_id: RequestId,
    key: &[u8],
    ty: KeyType,
    iv: &[u8],
    buffer: Vec<u8>,
    plaintext_size: usize,
) -> (r: Response)
    ensures
        cbc_encrypt_with_key_outcome(
            client_id,
            request_id,
            key@,
            ty,
            iv@,
            buffer@,
            plaintext_size as int,
            r,
        ),
{
    let mut buffer = buffer;
    let result = match ty {
        KeyType::Symmetric128Bits => cbc_mode::aes128cbc_encrypt(
            key,
            iv,
            &mut buffer,
            plaintext_size,
        ),
        KeyType::Symmetric192Bits => cbc_mode::aes192cbc_encrypt(
            key,
            iv,
            &mut buffer,
            plaintext_size,
        ),
        KeyType::Symmetric256Bits => cbc_mode::aes256cbc_encrypt(
            key,
            iv,
            &mut buffer,
            plaintext_size,
        ),
        _ => {
            return Response::Error {
                client_id,
                request_id,
                error: jobs::Error::KeyStore(keystore::Error::InvalidKeyType),
            };
        },
    };
    match result {
        Err(e) => Response::Error { client_id, request_id, error: jobs::Error::Crypto(e) },
        Ok(ciphertext_len) => {
            buffer.truncate(ciphertext_len);
            Response::EncryptAesCbc { client_id, request_id, buffer }
        },
    }
}

/// CBC decryption for a key resolved from the store; the response buffer is
/// the caller's buffer truncated to the unpadded plaintext.
pub fn decrypt_aes_cbc_with_key(
    client_id: ClientId,
    request_id: RequestId,
    key: &[u8],
    ty: KeyType,
    iv: &[u8],
    buffer: Vec<u8>,
) -> (r: Response)
    ensures
        cbc_decrypt_with_key_outcome(client_id, request_id, key@, ty, iv@, buffer@, r),
{
    let mut buffer = buffer;
    let result = match ty {
        KeyType::Symmetric128Bits => cbc_mode::aes128cbc_decrypt(key, iv, &mut buffer),
        KeyType::Symmetric192Bits => cbc_mode::aes192cbc_decrypt(key, iv, &mut buffer),
        KeyType::Symmetric256Bits => cbc_mode::aes256cbc_decrypt(key, iv, &mut buffer),
        _ => {
            return Response::Error {
                client_id,
                request_id,
                error: jobs::Error::KeyStore(keystore::Error::InvalidKeyType),
            };
        },
    };
    match result {
        Err(e) => Response::Error { client_id, request_id, error: jobs::Error::Crypto(e) },
        Ok(plaintext_len) => {
            buffer.truncate(plaintext_len);
            Response::DecryptAesCbc { client_id, request_id, plaintext: buffer }
        },
    }
}

/// What holds of every internal-key GCM encryption response: either a
/// key-store or crypto error, or a buffer sealed under some supported key.
pub open spec fn gcm_encrypt_internal_outcome(
    c: ClientId,
    q: RequestId,
    iv: Seq<u8>,
    pt: Seq<u8>,
    aad: Seq<u8>,
    tag0: Seq<u8>,
    r: Response,
) -> bool {
    match r {
        Response::Error { client_id, request_id, error } => client_id == c && request_id == q && (
        error matches jobs::Error::KeyStore(_) || error matches jobs::Error::Crypto(_)),
        Response::EncryptAesGcm { client_id, request_id, buffer, tag } => client_id == c
            && request_id == q && (exists|key: Seq<u8>|
            #[trigger] aes_gcm_sealed(key, iv, aad, pt, buffer@, tag@)),
        _ => false,
    }
}

/// What holds of every internal-key GCM decryption response: on success the
/// supplied tag authenticated the buffer under some supported key.
pub open spec fn gcm_decrypt_internal_outcome(
    c: ClientId,
    q: RequestId,
    iv: Seq<u8>,
    ct: Seq<u8>,
    aad: Seq<u8>,
    tag: Seq<u8>,
    r: Response,
) -> bool {
    match r {
        Response::Error { client_id, request_id, error } => client_id == c && request_id == q && (
        error matches jobs::Error::KeyStore(_) || error matches jobs::Error::Crypto(_)),
        Response::DecryptAesGcm { client_id, request_id, buffer } => client_id == c && request_id
            == q && (exists|key: Seq<u8>| #[trigger] gcm_opened(key, iv, aad, ct, tag, buffer@)),
        _ => false,
    }
}

/// The supplied tag is the GCM tag of `ct` under a supported `key`, and `pt`
/// is the matching plaintext.
pub open spec fn gcm_opened(
    key: Seq<u8>,
    iv: Seq<u8>,
    aad: Seq<u8>,
    ct: Seq<u8>,
    tag: Seq<u8>,
    pt: Seq<u8>,
) -> bool {
    &&& key.len() == KEY128_SIZE || key.len() == KEY256_SIZE
    &&& tag == aes_gcm_tag_of(key, iv, aad, ct)
    &&& pt == aes_gcm_plain_of(key, iv, ct)
    &&& pt.len() == ct.len()
}

/// `ct` is the CBC encryption of `padded` under `key`/`iv`.
pub open spec fn cbc_encrypted(key: Seq<u8>, iv: Seq<u8>, padded: Seq<u8>, ct: Seq<u8>) -> bool {
    &&& supported_aes_key(key)
    &&& ct == aes_cbc_cipher(key, iv, padded)
    &&& aes_cbc_plain(key, iv, ct) == padded
}

/// `pt` is the unpadded CBC decryption of `ct0` under `key`/`iv`.
pub open spec fn cbc_decrypted(key: Seq<u8>, iv: Seq<u8>, ct0: Seq<u8>, pt: Seq<u8>) -> bool {
    &&& supported_aes_key(key)
    &&& pkcs7_unpad(aes_cbc_plain(key, iv, ct0)) == Some(pt)
}

/// What holds of every internal-key CBC encryption response.
pub open spec fn cbc_encrypt_internal_outcome(
    c: ClientId,
    q: RequestId,
    iv: Seq<u8>,
    pt0: Seq<u8>,
    plaintext_size: int,
    r: Response,
) -> bool {
    match r {
        Response::Error { client_id, request_id, error } => client_id == c && request_id == q && (
        error matches jobs::Error::KeyStore(_) || error matches jobs::Error::Crypto(_)),
        Response::EncryptAesCbc { client_id, request_id, buffer } => client_id == c && request_id
            == q && buffer@.len() == plaintext_size + (16 - plaintext_size % 16) && buffer@.len()
            <= pt0.len() && (exists|key: Seq<u8>|
            #[trigger] cbc_encrypted(key, iv, pkcs7_pad(pt0.take(plaintext_size)), buffer@)),
        _ => false,
    }
}

/// What holds of every internal-key CBC decryption response: the returned
/// plaintext is a prefix-length view of the caller's buffer, never longer.
pub open spec fn cbc_decrypt_internal_outcome(
    c: ClientId,
    q: RequestId,
    iv: Seq<u8>,
    ct0: Seq<u8>,
    r: Response,
) -> bool {
    match r {
        Response::Error { client_id, request_id, error } => client_id == c && request_id == q && (
        error matches jobs::Error::KeyStore(_) || error matches jobs::Error::Crypto(_)),
        Response::DecryptAesCbc { client_id, request_id, plaintext } => client_id == c
            && request_id == q && plaintext@.len() <= ct0.len() && (exists|key: Seq<u8>|
            #[trigger] cbc_decrypted(key, iv, ct0, plaintext@)),
        _ => false,
    }
}

/// The AES worker: owns its key store handle and the fixed-size buffer that
/// holds exported key bytes for the span of one request.
pub struct AesWorkerCore<KS: KeyStore> {
    pub key_store: KS,
    pub key_buffer: Vec<u8>,
}

impl<KS: KeyStore> AesWorkerCore<KS> {
    /// A worker around the given key store, with a zeroed key buffer sized to
    /// the largest supported symmetric key.
    pub fn new(key_store: KS) -> (r: Self)
        ensures
            r.key_buffer@.len() == MAX_SYMMETRIC_KEY_SIZE,
            all_zero(r.key_buffer@),
    {
        AesWorkerCore { key_store, key_buffer: zeroed_buffer(MAX_SYMMETRIC_KEY_SIZE) }
    }

    /// Export key bytes and key metadata through the store's one combined
    /// capability call, so one request costs a single critical section on a
    /// shared store.
    pub fn export_key_and_key_info(&mut self, key_id: KeyId) -> (r: Result<
        (usize, KeyInfo),
        keystore::Error,
    >)
        ensures
            final(self).key_buffer@.len() == old(self).key_buffer@.len(),
            r matches Ok((n, info)) ==> n <= final(self).key_buffer@.len() && info.id == key_id,
    {
        self.key_store.export_and_info(key_id, &mut self.key_buffer)
    }

    /// Internal-key GCM encryption: export, dispatch on the stored key type,
    /// and zero the key copy on every path.
    pub fn encrypt_aes_gcm(
        &mut self,
        client_id: ClientId,
        request_id: RequestId,
        key_id: KeyId,
        iv: Vec<u8>,
        buffer: Vec<u8>,
        aad: Vec<u8>,
        tag: Vec<u8>,
    ) -> (r: Response)
        ensures
            final(self).key_buffer@.len() == old(self).key_buffer@.len(),
            all_zero(final(self).key_buffer@),
            gcm_encrypt_internal_outcome(client_id, request_id, iv@, buffer@, aad@, tag@, r),
    {
        let export = self.export_key_and_key_info(key_id);
        let r = match export {
            Err(e) => Response::Error {
                client_id,
                request_id,
                error: jobs::Error::KeyStore(e),
            },
            Ok((n, info)) => {
                let key = slice_subrange(self.key_buffer.as_slice(), 0, n);
                encrypt_aes_gcm_with_key(
                    client_id,
                    request_id,
                    key,
                    info.ty,
                    iv.as_slice(),
                    buffer,
                    aad.as_slice(),
                    tag,
                )
            },
        };
        zeroize_key_buffer(&mut self.key_buffer);
        r
    }

    /// External-key GCM encryption: dispatch purely on the supplied key
    /// length; no key-store interaction occurs.
    pub fn encrypt_aes_gcm_external_key(
        &mut self,
        client_id: ClientId,
        request_id: RequestId,
        key: &[u8],
        iv: &[u8],
        buffer: Vec<u8>,
        aad: &[u8],
        tag: Vec<u8>,
    ) -> (r: Response)
        ensures
            *final(self) == *old(self),
            gcm_encrypt_keyed_outcome(client_id, request_id, key@, iv@, buffer@, aad@, tag@, r),
    {
        let mut buffer = buffer;
        let mut tag = tag;
        let result = if key.len() == KEY128_SIZE {
            gcm::aes128gcm_encrypt_in_place_detached(key, iv, aad, &mut buffer, &mut tag)
        } else if key.len() == KEY256_SIZE {
            gcm::aes256gcm_encrypt_in_place_detached(key, iv, aad, &mut buffer, &mut tag)
        } else {
            return Response::Error {
                client_id,
                request_id,
                error: jobs::Error::Crypto(crypto::Error::InvalidSymmetricKeySize),
            };
        };
        match result {
            Err(e) => Response::Error { client_id, request_id, error: jobs::Error::Crypto(e) },
            Ok(()) => Response::EncryptAesGcm { client_id, request_id, buffer, tag },
        }
    }

    /// Internal-key GCM decryption.
    pub fn decrypt_aes_gcm(
        &mut self,
        client_id: ClientId,
        request_id: RequestId,
        key_id: KeyId,
        iv: Vec<u8>,
        buffer: Vec<u8>,
        aad: Vec<u8>,
        tag: Vec<u8>,
    ) -> (r: Response)
        ensures
            final(self).key_buffer@.len() == old(self).key_buffer@.len(),
            all_zero(final(self).key_buffer@),
            gcm_decrypt_internal_outcome(client_id, request_id, iv@, buffer@, aad@, tag@, r),
    {
        let export = self.export_key_and_key_info(key_id);
        let r = match export {
            Err(e) => Response::Error {
                client_id,
                request_id,
                error: jobs::Error::KeyStore(e),
            },
            Ok((n, info)) => {
                let ghost ct0 = buffer@;
                let key = slice_subrange(self.key_buffer.as_slice(), 0, n);
                let resp = decrypt_aes_gcm_with_key(
                    client_id,
                    request_id,
                    key,
                    info.ty,
                    iv.as_slice(),
                    buffer,
                    aad.as_slice(),
                    tag.as_slice(),
                );
                proof {
                    if !(resp matches Response::Error { .. }) {
                        assert(gcm_opened(
                            key@,
                            iv@,
                            aad@,
                            ct0,
                            tag@,
                            aes_gcm_plain_of(key@, iv@, ct0),
                        ));
                    }
                }
                resp
            },
        };
        zeroize_key_buffer(&mut self.key_buffer);
        r
    }

    /// External-key GCM decryption.
    pub fn decrypt_aes_gcm_external_key(
        &mut self,
        client_id: ClientId,
        request_id: RequestId,
        key: &[u8],
        iv: &[u8],
        buffer: Vec<u8>,
        aad: &[u8],
        tag: &[u8],
    ) -> (r: Response)
        ensures
            *final(self) == *old(self),
            gcm_decrypt_keyed_outcome(client_id, request_id, key@, iv@, buffer@, aad@, tag@, r),
    {
        let mut buffer = buffer;
        let result = if key.len() == KEY128_SIZE {
            gcm::aes128gcm_decrypt_in_place_detached(key, iv, aad, &mut buffer, tag)
        } else if key.len() == KEY256_SIZE {
            gcm::aes256gcm_decrypt_in_place_detached(key, iv, aad, &mut buffer, tag)
        } else {
            return Response::Error {
                client_id,
                request_id,
                error: jobs::Error::Crypto(crypto::Error::InvalidSymmetricKeySize),
            };
        };
        match result {
            Err(e) => Response::Error { client_id, request_id, error: jobs::Error::Crypto(e) },
            Ok(()) => Response::DecryptAesGcm { client_id, request_id, buffer },
        }
    }

    /// Internal-key CBC encryption.
    pub fn encrypt_aes_cbc(
        &mut self,
        client_id: ClientId,
        request_id: RequestId,
        key_id: KeyId,
        iv: Vec<u8>,
        buffer: Vec<u8>,
        plaintext_size: usize,
    ) -> (r: Response)
        ensures
            final(self).key_buffer@.len() == old(self).key_buffer@.len(),
            all_zero(final(self).key_buffer@),
            cbc_encrypt_internal_outcome(
                client_id,
                request_id,
                iv@,
                buffer@,
                plaintext_size as int,
                r,
            ),
    {
        let export = self.export_key_and_key_info(key_id);
        let r = match export {
            Err(e) => Response::Error {
                client_id,
                request_id,
                error: jobs::Error::KeyStore(e),
            },
            Ok((n, info)) => {
                let ghost pt0 = buffer@;
                let key = slice_subrange(self.key_buffer.as_slice(), 0, n);
                let resp = encrypt_aes_cbc_with_key(
                    client_id,
                    request_id,
                    key,
                    info.ty,
                    iv.as_slice(),
                    buffer,
                    plaintext_size,
                );
                proof {
                    if !(resp matches Response::Error { .. }) {
                        let padded = pkcs7_pad(pt0.take(plaintext_size as int));
                        assert(cbc_encrypted(key@, iv@, padded, aes_cbc_cipher(key@, iv@, padded)));
                    }
                }
                resp
            },
        };
        zeroize_key_buffer(&mut self.key_buffer);
        r
    }

    /// External-key CBC encryption.
    pub fn encrypt_aes_cbc_external_key(
        &mut self,
        client_id: ClientId,
        request_id: RequestId,
        key: &[u8],
        iv: &[u8],
        buffer: Vec<u8>,
        plaintext_size: usize,
    ) -> (r: Response)
        ensures
            *final(self) == *old(self),
            cbc_encrypt_keyed_outcome(
                client_id,
                request_id,
                key@,
                iv@,
                buffer@,
                plaintext_size as int,
                r,
            ),
    {
        let mut buffer = buffer;
        let result = if key.len() == KEY128_SIZE {
            cbc_mode::aes128cbc_encrypt(key, iv, &mut buffer, plaintext_size)
        } else if key.len() == KEY192_SIZE {
            cbc_mode::aes192cbc_encrypt(key, iv, &mut buffer, plaintext_size)
        } else if key.len() == KEY256_SIZE {
            cbc_mode::aes256cbc_encrypt(key, iv, &mut buffer, plaintext_size)
        } else {
            return Response::Error {
                client_id,
                request_id,
                error: jobs::Error::Crypto(crypto::Error::InvalidSymmetricKeySize),
            };
        };
        match result {
            Err(e) => Response::Error { client_id, request_id, error: jobs::Error::Crypto(e) },
            Ok(ciphertext_len) => {
                buffer.truncate(ciphertext_len);
                Response::EncryptAesCbc { client_id, request_id, buffer }
            },
        }
    }

    /// Internal-key CBC decryption.
    pub fn decrypt_aes_cbc(
        &mut self,
        client_id: ClientId,
        request_id: RequestId,
        key_id: KeyId,
        iv: Vec<u8>,
        buffer: Vec<u8>,
    ) -> (r: Response)
        ensures
            final(self).key_buffer@.len() == old(self).key_buffer@.len(),
            all_zero(final(self).key_buffer@),
            cbc_decrypt_internal_outcome(client_id, request_id, iv@, buffer@, r),
    {
        let export = self.export_key_and_key_info(key_id);
        let r = match export {
            Err(e) => Response::Error {
                client_id,
                request_id,
                error: jobs::Error::KeyStore(e),
            },
            Ok((n, info)) => {
                let ghost ct0 = buffer@;
                let key = slice_subrange(self.key_buffer.as_slice(), 0, n);
                let resp = decrypt_aes_cbc_with_key(
                    client_id,
                    request_id,
                    key,
                    info.ty,
                    iv.as_slice(),
                    buffer,
                );
                proof {
                    if !(resp matches Response::Error { .. }) {
                        let p = pkcs7_unpad(aes_cbc_plain(key@, iv@, ct0))->0;
                        assert(cbc_decrypted(key@, iv@, ct0, p));
                    }
                }
                resp
            },
        };
        zeroize_key_buffer(&mut self.key_buffer);
        r
    }

    /// External-key CBC decryption.
    pub fn decrypt_aes_cbc_external_key(
        &mut self,
        client_id: ClientId,
        request_id: RequestId,
        key: &[u8],
        iv: &[u8],
        buffer: Vec<u8>,
    ) -> (r: Response)
        ensures
            *final(self) == *old(self),
            cbc_decrypt_keyed_outcome(client_id, request_id, key@, iv@, buffer@, r),
    {
        let mut buffer = buffer;
        let result = if key.len() == KEY128_SIZE {
            cbc_mode::aes128cbc_decrypt(key, iv, &mut buffer)
        } else if key.len() == KEY192_SIZE {
            cbc_mode::aes192cbc_decrypt(key, iv, &mut buffer)
        } else if key.len() == KEY256_SIZE {
            cbc_mode::aes256cbc_decrypt(key, iv, &mut buffer)
        } else {
            return Response::Error {
                client_id,
                request_id,
                error: jobs::Error::Crypto(crypto::Error::InvalidSymmetricKeySize),
            };
        };
        match result {
            Err(e) => Response::Error { client_id, request_id, error: jobs::Error::Crypto(e) },
            Ok(plaintext_len) => {
                buffer.truncate(plaintext_len);
                Response::DecryptAesCbc { client_id, request_id, plaintext: buffer }
            },
        }
    }
}

/// What the AES worker promises of the one response it produces for each
/// request variant in its declared set.
pub open spec fn aes_request_outcome(request: Request, r: Response) -> bool {
    match request {
        Request::EncryptAesGcm { client_id, request_id, key_id, iv, buffer, aad, tag } =>
            gcm_encrypt_internal_outcome(
            client_id,
            request_id,
            iv@,
            buffer@,
            aad@,
            tag@,
            r,
        ),
        Request::EncryptAesGcmExternalKey { client_id, request_id, key, iv, buffer, aad, tag } =>
            gcm_encrypt_keyed_outcome(
            client_id,
            request_id,
            key@,
            iv@,
            buffer@,
            aad@,
            tag@,
            r,
        ),
        Request::DecryptAesGcm { client_id, request_id, key_id, iv, buffer, aad, tag } =>
            gcm_decrypt_internal_outcome(
            client_id,
            request_id,
            iv@,
            buffer@,
            aad@,
            tag@,
            r,
        ),
        Request::DecryptAesGcmExternalKey { client_id, request_id, key, iv, buffer, aad, tag } =>
            gcm_decrypt_keyed_outcome(
            client_id,
            request_id,
            key@,
            iv@,
            buffer@,
            aad@,
            tag@,
            r,
        ),
        Request::EncryptAesCbc { client_id, request_id, key_id, iv, buffer, plaintext_size } =>
            cbc_encrypt_internal_outcome(
            client_id,
            request_id,
            iv@,
            buffer@,
            plaintext_size as int,
            r,
        ),
        Request::EncryptAesCbcExternalKey {
            client_id,
            request_id,
            key,
            iv,
            buffer,
            plaintext_size,
        } => cbc_encrypt_keyed_outcome(
            client_id,
            request_id,
            key@,
            iv@,
            buffer@,
            plaintext_size as int,
            r,
        ),
        Request::DecryptAesCbc { client_id, request_id, key_id, iv, buffer } =>
            cbc_decrypt_internal_outcome(client_id, request_id, iv@, buffer@, r),
        Request::DecryptAesCbcExternalKey { client_id, request_id, key, iv, buffer } =>
            cbc_decrypt_keyed_outcome(client_id, request_id, key@, iv@, buffer@, r),
        _ => false,
    }
}

impl<KS: KeyStore> AesWorkerCore<KS> {
    /// Resolve one inbound job to exactly one correlated response. A request
    /// outside the AES worker's declared set is a protocol-level mismatch and
    /// is answered, not dropped: the client receives an error response naming
    /// the unhandled request type. After any internal-key request the local
    /// key copy holds only zeros.
    pub fn process_request(&mut self, request: Request) -> (r: Response)
        ensures
            final(self).key_buffer@.len() == old(self).key_buffer@.len(),
            correlated(request, r),
            request.is_aes() ==> aes_request_outcome(request, r),
            !request.is_aes() ==> r == error_response(
                request.client(),
                request.request(),
                jobs::Error::UnexpectedRequestType,
            ),
            request.is_aes_internal_key() ==> all_zero(final(self).key_buffer@),
            all_zero(old(self).key_buffer@) ==> all_zero(final(self).key_buffer@),
    {
        let ids = request.identifiers();
        match request {
            Request::EncryptAesGcm { client_id, request_id, key_id, iv, buffer, aad, tag } => self
                .encrypt_aes_gcm(client_id, request_id, key_id, iv, buffer, aad, tag),
            Request::EncryptAesGcmExternalKey {
                client_id,
                request_id,
                key,
                iv,
                buffer,
                aad,
                tag,
            } => self.encrypt_aes_gcm_external_key(
                client_id,
                request_id,
                key.as_slice(),
                iv.as_slice(),
                buffer,
                aad.as_slice(),
                tag,
            ),
            Request::DecryptAesGcm { client_id, request_id, key_id, iv, buffer, aad, tag } => self
                .decrypt_aes_gcm(client_id, request_id, key_id, iv, buffer, aad, tag),
            Request::DecryptAesGcmExternalKey {
                client_id,
                request_id,
                key,
                iv,
                buffer,
                aad,
                tag,
            } => self.decrypt_aes_gcm_external_key(
                client_id,
                request_id,
                key.as_slice(),
                iv.as_slice(),
                buffer,
                aad.as_slice(),
                tag.as_slice(),
            ),
            Request::EncryptAesCbc { client_id, request_id, key_id, iv, buffer, plaintext_size } =>
                self.encrypt_aes_cbc(client_id, request_id, key_id, iv, buffer, plaintext_size),
            Request::EncryptAesCbcExternalKey {
                client_id,
                request_id,
                key,
                iv,
                buffer,
                plaintext_size,
            } => self.encrypt_aes_cbc_external_key(
                client_id,
                request_id,
                key.as_slice(),
                iv.as_slice(),
                buffer,
                plaintext_size,
            ),
            Request::DecryptAesCbc { client_id, request_id, key_id, iv, buffer } => self
                .decrypt_aes_cbc(client_id, request_id, key_id, iv, buffer),
            Request::DecryptAesCbcExternalKey { client_id, request_id, key, iv, buffer } => self
                .decrypt_aes_cbc_external_key(
                client_id,
                request_id,
                key.as_slice(),
                iv.as_slice(),
                buffer,
            ),
            _ => Response::Error {
                client_id: ids.0,
                request_id: ids.1,
                error: jobs::Error::UnexpectedRequestType,
            },
        }
    }
}

} // verus!
