//! The ChaCha20-Poly1305 worker: structurally parallel to the AES worker for
//! the single AEAD construction, and optionally configured without any key
//! store. In that mode every internal-key request fails with a distinct
//! error instead of touching an absent store. Both key paths funnel into one
//! encrypt/decrypt pair over already-resolved key bytes.

use vstd::prelude::*;

verus! {

use crate::chachapoly;
use crate::chachapoly::{
    chachapoly_plain, chachapoly_sealed, chachapoly_tag, CHACHAPOLY_KEY_SIZE,
    CHACHAPOLY_MSG_LIMIT, CHACHAPOLY_NONCE_SIZE, CHACHAPOLY_TAG_SIZE,
};
use crate::crypto;
use crate::jobs;
use crate::jobs::{correlated, error_response, ClientId, Request, RequestId, Response};
use crate::keystore::{KeyId, KeyStore, MAX_SYMMETRIC_KEY_SIZE};
use crate::secret::{all_zero, zeroed_buffer, zeroize_key_buffer};
use vstd::slice::slice_subrange;

/// Outcome of a ChaCha20-Poly1305 encryption once the key bytes are resolved.
pub open spec fn chachapoly_encrypt_keyed_outcome(
    c: ClientId,
    q: RequestId,
    key: Seq<u8>,
    nonce: Seq<u8>,
    pt: Seq<u8>,
    aad: Seq<u8>,
    tag0: Seq<u8>,
    r: Response,
) -> bool {
    if key.len() != CHACHAPOLY_KEY_SIZE {
        r == error_response(c, q, jobs::Error::Crypto(crypto::Error::InvalidSymmetricKeySize))
    } else if nonce.len() != CHACHAPOLY_NONCE_SIZE {
        r == error_response(c, q, jobs::Error::Crypto(crypto::Error::InvalidNonceSize))
    } else if pt.len() >= CHACHAPOLY_MSG_LIMIT {
        r == error_response(c, q, jobs::Error::Crypto(crypto::Error::Encrypt))
    } else if tag0.len() != CHACHAPOLY_TAG_SIZE {
        r == error_response(c, q, jobs::Error::Crypto(crypto::Error::InvalidTagSize))
    } else {
        r matches Response::EncryptChaChaPoly { client_id, request_id, ciphertext, tag }
            && client_id == c && request_id == q && chachapoly_sealed(
            key,
            nonce,
            aad,
            pt,
            ciphertext@,
            tag@,
        )
    }
}

/// Outcome of a ChaCha20-Poly1305 decryption once the key bytes are resolved.
pub open spec fn chachapoly_decrypt_keyed_outcome(
    c: ClientId,
    q: RequestId,
    key: Seq<u8>,
    nonce: Seq<u8>,
    ct: Seq<u8>,
    aad: Seq<u8>,
    tag: Seq<u8>,
    r: Response,
) -> bool {
    if key.len() != CHACHAPOLY_KEY_SIZE {
        r == error_response(c, q, jobs::Error::Crypto(crypto::Error::InvalidSymmetricKeySize))
    } else if nonce.len() != CHACHAPOLY_NONCE_SIZE {
        r == error_response(c, q, jobs::Error::Crypto(crypto::Error::InvalidNonceSize))
    } else if tag.len() != CHACHAPOLY_TAG_SIZE {
        r == error_response(c, q, jobs::Error::Crypto(crypto::Error::InvalidTagSize))
    } else if ct.len() < CHACHAPOLY_MSG_LIMIT && tag == chachapoly_tag(key, nonce, aad, ct) {
        r matches Response::DecryptChaChaPoly { client_id, request_id, plaintext } && client_id
            == c && request_id == q && plaintext@ == chachapoly_plain(key, nonce, ct)
            && plaintext@.len() == ct.len()
    } else {
        r == error_response(c, q, jobs::Error::Crypto(crypto::Error::Decrypt))
    }
}

/// The supplied tag is the Poly1305 tag of `ct` under `key`, and `pt` is the
/// matching plaintext.
pub open spec fn chachapoly_opened(
    key: Seq<u8>,
    nonce: Seq<u8>,
    aad: Seq<u8>,
    ct: Seq<u8>,
    tag: Seq<u8>,
    pt: Seq<u8>,
) -> bool {
    &&& key.len() == CHACHAPOLY_KEY_SIZE
    &&& tag == chachapoly_tag(key, nonce, aad, ct)
    &&& pt == chachapoly_plain(key, nonce, ct)
    &&& pt.len() == ct.len()
}

/// What holds of every internal-key encryption response: without a store the
/// one distinct error; otherwise a store or crypto error, or a buffer sealed
/// under some resolved key.
pub open spec fn chachapoly_encrypt_internal_outcome(
    c: ClientId,
    q: RequestId,
    store_present: bool,
    nonce: Seq<u8>,
    pt: Seq<u8>,
    aad: Seq<u8>,
    tag0: Seq<u8>,
    r: Response,
) -> bool {
    if !store_present {
        r == error_response(c, q, jobs::Error::NoKeyStore)
    } else {
        match r {
            Response::Error { client_id, request_id, error } => client_id == c && request_id == q
                && (error matches jobs::Error::KeyStore(_)
                || error matches jobs::Error::Crypto(_)),
            Response::EncryptChaChaPoly { client_id, request_id, ciphertext, tag } => client_id
                == c && request_id == q && (exists|key: Seq<u8>|
            #[trigger] chachapoly_sealed(key, nonce, aad, pt, ciphertext@, tag@)),
            _ => false,
        }
    }
}

/// What holds of every internal-key decryption response.
pub open spec fn chachapoly_decrypt_internal_outcome(
    c: ClientId,
    q: RequestId,
    store_present: bool,
    nonce: Seq<u8>,
    ct: Seq<u8>,
    aad: Seq<u8>,
    tag: Seq<u8>,
    r: Response,
) -> bool {
    if !store_present {
        r == error_response(c, q, jobs::Error::NoKeyStore)
    } else {
        match r {
            Response::Error { client_id, request_id, error } => client_id == c && request_id == q
                && (error matches jobs::Error::KeyStore(_)
                || error matches jobs::Error::Crypto(_)),
            Response::DecryptChaChaPoly { client_id, request_id, plaintext } => client_id == c
                && request_id == q && (exists|key: Seq<u8>|
            #[trigger] chachapoly_opened(key, nonce, aad, ct, tag, plaintext@)),
            _ => false,
        }
    }
}

/// Overwrite `dst` with the bytes of `src`; both must have the same length.
fn copy_into(dst: &mut Vec<u8>, src: &Vec<u8>)
    requires
        old(dst)@.len() == src@.len(),
    ensures
        final(dst)@ == src@,
{
    let mut i: usize = 0;
    while i < src.len()
        invariant
            dst@.len() == src@.len(),
            i <= src@.len(),
            forall|j: int| 0 <= j < i ==> dst@[j] == src@[j],
        decreases src@.len() - i,
    {
        let b = src[i];
        dst[i] = b;
        i += 1;
    }
    proof {
        assert(dst@ =~= src@);
    }
}

/// The one encryption funnel for both key paths: the internal/external
/// distinction is confined to key resolution and never duplicated here. The
/// computed tag is written into the caller's detached tag buffer.
pub fn encrypt(
    client_id: ClientId,
    request_id: RequestId,
    key: &[u8],
    nonce: &[u8],
    aad: &[u8],
    ciphertext: Vec<u8>,
    tag: Vec<u8>,
) -> (r: Response)
    ensures
        chachapoly_encrypt_keyed_outcome(
            client_id,
            request_id,
            key@,
            nonce@,
            ciphertext@,
            aad@,
            tag@,
            r,
        ),
{
    let mut ciphertext = ciphertext;
    let mut tag = tag;
    match chachapoly::encrypt_in_place_detached(key, nonce, aad, &mut ciphertext) {
        Ok(computed_tag) => {
            if computed_tag.len() != tag.len() {
                return Response::Error {
                    client_id,
                    request_id,
                    error: jobs::Error::Crypto(crypto::Error::InvalidTagSize),
                };
            }
            copy_into(&mut tag, &computed_tag);
            Response::EncryptChaChaPoly { client_id, request_id, ciphertext, tag }
        },
        Err(e) => Response::Error { client_id, request_id, error: jobs::Error::Crypto(e) },
    }
}

/// The one decryption funnel for both key paths. The tag is verified by the
/// primitive's own constant-time comparison, never byte-by-byte here.
pub fn decrypt(
    client_id: ClientId,
    request_id: RequestId,
    key: &[u8],
    nonce: &[u8],
    aad: &[u8],
    plaintext: Vec<u8>,
    tag: &[u8],
) -> (r: Response)
    ensures
        chachapoly_decrypt_keyed_outcome(
            client_id,
            request_id,
            key@,
            nonce@,
            plaintext@,
            aad@,
            tag@,
            r,
        ),
{
    let mut plaintext = plaintext;
    match chachapoly::decrypt_in_place_detached(key, nonce, aad, &mut plaintext, tag) {
        Ok(()) => Response::DecryptChaChaPoly { client_id, request_id, plaintext },
        Err(e) => Response::Error { client_id, request_id, error: jobs::Error::Crypto(e) },
    }
}

/// The ChaCha20-Poly1305 worker: an optional key store handle for
/// external-key-only deployments, and the fixed-size buffer holding exported
/// key bytes for the span of one request.
pub struct ChaChaPolyWorkerCore<KS: KeyStore> {
    pub key_store: Option<KS>,
    pub key_buffer: Vec<u8>,
}

impl<KS: KeyStore> ChaChaPolyWorkerCore<KS> {
    /// A worker around the given key store, or without one; the key buffer
    /// starts zeroed and sized to the largest supported symmetric key.
    pub fn new(key_store: Option<KS>) -> (r: Self)
        ensures
            r.key_buffer@.len() == MAX_SYMMETRIC_KEY_SIZE,
            all_zero(r.key_buffer@),
            r.key_store is Some <==> key_store is Some,
    {
        ChaChaPolyWorkerCore { key_store, key_buffer: zeroed_buffer(MAX_SYMMETRIC_KEY_SIZE) }
    }

    /// Internal-key encryption: fails with the distinct no-store error when
    /// no key store is configured; the local key copy is zeroed on every
    /// path.
    pub fn encrypt_internal_key(
        &mut self,
        client_id: ClientId,
        request_id: RequestId,
        key_id: KeyId,
        nonce: Vec<u8>,
        plaintext: Vec<u8>,
        aad: Vec<u8>,
        tag: Vec<u8>,
    ) -> (r: Response)
        ensures
            final(self).key_buffer@.len() == old(self).key_buffer@.len(),
            all_zero(final(self).key_buffer@),
            final(self).key_store is Some <==> old(self).key_store is Some,
            chachapoly_encrypt_internal_outcome(
                client_id,
                request_id,
                old(self).key_store is Some,
                nonce@,
                plaintext@,
                aad@,
                tag@,
                r,
            ),
    {
        let export = match &mut self.key_store {
            None => {
                zeroize_key_buffer(&mut self.key_buffer);
                return Response::Error {
                    client_id,
                    request_id,
                    error: jobs::Error::NoKeyStore,
                };
            },
            Some(key_store) => key_store.export(key_id, &mut self.key_buffer),
        };
        let r = match export {
            Err(e) => Response::Error {
                client_id,
                request_id,
                error: jobs::Error::KeyStore(e),
            },
            Ok(n) => {
                let key = slice_subrange(self.key_buffer.as_slice(), 0, n);
                encrypt(
                    client_id,
                    request_id,
                    key,
                    nonce.as_slice(),
                    aad.as_slice(),
                    plaintext,
                    tag,
                )
            },
        };
        zeroize_key_buffer(&mut self.key_buffer);
        r
    }

    /// Internal-key decryption; mirrors `encrypt_internal_key`.
    pub fn decrypt_with_internal_key(
        &mut self,
        client_id: ClientId,
        request_id: RequestId,
        key_id: KeyId,
        nonce: Vec<u8>,
        ciphertext: Vec<u8>,
        aad: Vec<u8>,
        tag: Vec<u8>,
    ) -> (r: Response)
        ensures
            final(self).key_buffer@.len() == old(self).key_buffer@.len(),
            all_zero(final(self).key_buffer@),
            final(self).key_store is Some <==> old(self).key_store is Some,
            chachapoly_decrypt_internal_outcome(
                client_id,
                request_id,
                old(self).key_store is Some,
                nonce@,
                ciphertext@,
                aad@,
                tag@,
                r,
            ),
    {
        let export = match &mut self.key_store {
            None => {
                zeroize_key_buffer(&mut self.key_buffer);
                return Response::Error {
                    client_id,
                    request_id,
                    error: jobs::Error::NoKeyStore,
                };
            },
            Some(key_store) => key_store.export(key_id, &mut self.key_buffer),
        };
        let r = match export {
            Err(e) => Response::Error {
                client_id,
                request_id,
                error: jobs::Error::KeyStore(e),
            },
            Ok(n) => {
                let ghost ct0 = ciphertext@;
                let key = slice_subrange(self.key_buffer.as_slice(), 0, n);
                let resp = decrypt(
                    client_id,
                    request_id,
                    key,
                    nonce.as_slice(),
                    aad.as_slice(),
                    ciphertext,
                    tag.as_slice(),
                );
                proof {
                    if !(resp matches Response::Error { .. }) {
                        assert(chachapoly_opened(
                            key@,
                            nonce@,
                            aad@,
                            ct0,
                            tag@,
                            chachapoly_plain(key@, nonce@, ct0),
                        ));
                    }
                }
                resp
            },
        };
        zeroize_key_buffer(&mut self.key_buffer);
        r
    }

    /// External-key encryption: no key-store interaction occurs.
    pub fn encrypt_with_external_key(
        &mut self,
        client_id: ClientId,
        request_id: RequestId,
        key: &[u8],
        nonce: &[u8],
        aad: &[u8],
        ciphertext: Vec<u8>,
        tag: Vec<u8>,
    ) -> (r: Response)
        ensures
            *final(self) == *old(self),
            chachapoly_encrypt_keyed_outcome(
                client_id,
                request_id,
                key@,
                nonce@,
                ciphertext@,
                aad@,
                tag@,
                r,
            ),
    {
        encrypt(client_id, request_id, key, nonce, aad, ciphertext, tag)
    }

    /// External-key decryption: no key-store interaction occurs.
    pub fn decrypt_with_external_key(
        &mut self,
        client_id: ClientId,
        request_id: RequestId,
        key: &[u8],
        nonce: &[u8],
        aad: &[u8],
        plaintext: Vec<u8>,
        tag: &[u8],
    ) -> (r: Response)
        ensures
            *final(self) == *old(self),
            chachapoly_decrypt_keyed_outcome(
                client_id,
                request_id,
                key@,
                nonce@,
                plaintext@,
                aad@,
                tag@,
                r,
            ),
    {
        decrypt(client_id, request_id, key, nonce, aad, plaintext, tag)
    }
}

/// What the ChaCha20-Poly1305 worker promises of the one response it produces
/// for each request variant in its declared set.
pub open spec fn chachapoly_request_outcome(
    store_present: bool,
    request: Request,
    r: Response,
) -> bool {
    match request {
        Request::EncryptChaChaPoly { client_id, request_id, key_id, nonce, plaintext, aad, tag } =>
            chachapoly_encrypt_internal_outcome(
            client_id,
            request_id,
            store_present,
            nonce@,
            plaintext@,
            aad@,
            tag@,
            r,
        ),
        Request::EncryptChaChaPolyExternalKey {
            client_id,
            request_id,
            key,
            nonce,
            plaintext,
            aad,
            tag,
        } => chachapoly_encrypt_keyed_outcome(
            client_id,
            request_id,
            key@,
            nonce@,
            plaintext@,
            aad@,
            tag@,
            r,
        ),
        Request::DecryptChaChaPoly {
            client_id,
            request_id,
            key_id,
            nonce,
            ciphertext,
            aad,
            tag,
        } => chachapoly_decrypt_internal_outcome(
            client_id,
            request_id,
            store_present,
            nonce@,
            ciphertext@,
            aad@,
            tag@,
            r,
        ),
        Request::DecryptChaChaPolyExternalKey {
            client_id,
            request_id,
            key,
            nonce,
            ciphertext,
            aad,
            tag,
        } => chachapoly_decrypt_keyed_outcome(
            client_id,
            request_id,
            key@,
            nonce@,
            ciphertext@,
            aad@,
            tag@,
            r,
        ),
        _ => false,
    }
}

impl<KS: KeyStore> ChaChaPolyWorkerCore<KS> {
    /// Resolve one inbound job to exactly one correlated response. A request
    /// outside the ChaCha20-Poly1305 worker's declared set is a
    /// protocol-level mismatch and is answered, not dropped: the client
    /// receives an error response naming the unhandled request type. After
    /// any internal-key request the local key copy holds only zeros.
    pub fn process_request(&mut self, request: Request) -> (r: Response)
        ensures
            final(self).key_buffer@.len() == old(self).key_buffer@.len(),
            final(self).key_store is Some <==> old(self).key_store is Some,
            correlated(request, r),
            request.is_chachapoly() ==> chachapoly_request_outcome(
                old(self).key_store is Some,
                request,
                r,
            ),
            !request.is_chachapoly() ==> r == error_response(
                request.client(),
                request.request(),
                jobs::Error::UnexpectedRequestType,
            ),
            request.is_chachapoly_internal_key() ==> all_zero(final(self).key_buffer@),
            all_zero(old(self).key_buffer@) ==> all_zero(final(self).key_buffer@),
    {
        let ids = request.identifiers();
        match request {
            Request::EncryptChaChaPoly {
                client_id,
                request_id,
                key_id,
                nonce,
                plaintext,
                aad,
                tag,
            } => self.encrypt_internal_key(
                client_id,
                request_id,
                key_id,
                nonce,
                plaintext,
                aad,
                tag,
            ),
            Request::EncryptChaChaPolyExternalKey {
                client_id,
                request_id,
                key,
                nonce,
                plaintext,
                aad,
                tag,
            } => self.encrypt_with_external_key(
                client_id,
                request_id,
                key.as_slice(),
                nonce.as_slice(),
                aad.as_slice(),
                plaintext,
                tag,
            ),
            Request::DecryptChaChaPoly {
                client_id,
                request_id,
                key_id,
                nonce,
                ciphertext,
                aad,
                tag,
            } => self.decrypt_with_internal_key(
                client_id,
                request_id,
                key_id,
                nonce,
                ciphertext,
                aad,
                tag,
            ),
            Request::DecryptChaChaPolyExternalKey {
                client_id,
                request_id,
                key,
                nonce,
                ciphertext,
                aad,
                tag,
            } => self.decrypt_with_external_key(
                client_id,
                request_id,
                key.as_slice(),
                nonce.as_slice(),
                aad.as_slice(),
                ciphertext,
                tag.as_slice(),
            ),
            _ => Response::Error {
                client_id: ids.0,
                request_id: ids.1,
                error: jobs::Error::UnexpectedRequestType,
            },
        }
    }
}

} // verus!
