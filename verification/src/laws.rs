//! Library-wide laws, stated and proved against the contracts of the workers
//! and primitive adapters.

use vstd::prelude::*;

verus! {

use crate::aes_worker::{
    cbc_decrypt_keyed_outcome, cbc_encrypt_keyed_outcome, cbc_encrypt_with_key_outcome,
    gcm_decrypt_keyed_outcome, gcm_decrypt_with_key_outcome, gcm_encrypt_keyed_outcome,
    gcm_encrypt_with_key_outcome, supported_aes_key,
};
use crate::cbc_mode;
use crate::cbc_mode::{lemma_pkcs7_round_trip, pkcs7_pad, CBC_BLOCK_SIZE, CBC_IV_SIZE};
use crate::chachapoly;
use crate::chachapoly::{
    CHACHAPOLY_KEY_SIZE, CHACHAPOLY_MSG_LIMIT, CHACHAPOLY_NONCE_SIZE, CHACHAPOLY_TAG_SIZE,
};
use crate::chachapoly_worker::{
    chachapoly_decrypt_internal_outcome, chachapoly_decrypt_keyed_outcome,
    chachapoly_encrypt_internal_outcome, chachapoly_encrypt_keyed_outcome,
};
use crate::crypto;
use crate::crypto::{KEY128_SIZE, KEY192_SIZE, KEY256_SIZE};
use crate::gcm;
use crate::gcm::{GCM_A_MAX, GCM_IV_SIZE, GCM_P_MAX, GCM_TAG_SIZE};
use crate::jobs;
use crate::jobs::{correlated, error_response, ClientId, Request, RequestId, Response};
use crate::keystore::KeyType;
use crate::secret::zeroed_buffer;

/// Law: for both supported AES-GCM key sizes, decrypting what encryption
/// produced, under the same key, IV and associated data and with the detached
/// tag it wrote, returns the original plaintext.
pub fn aes_gcm_round_trip(key: &[u8], iv: &[u8], aad: &[u8], plaintext: Vec<u8>) -> (r: Vec<u8>)
    requires
        key@.len() == KEY128_SIZE || key@.len() == KEY256_SIZE,
        iv@.len() == GCM_IV_SIZE,
        plaintext@.len() <= GCM_P_MAX,
        aad@.len() <= GCM_A_MAX,
    ensures
        r@ == plaintext@,
{
    let mut buffer = plaintext;
    let mut tag = zeroed_buffer(GCM_TAG_SIZE);
    let enc = if key.len() == KEY128_SIZE {
        gcm::aes128gcm_encrypt_in_place_detached(key, iv, aad, &mut buffer, &mut tag)
    } else {
        gcm::aes256gcm_encrypt_in_place_detached(key, iv, aad, &mut buffer, &mut tag)
    };
    match enc {
        Ok(()) => (),
        Err(_) => {
            proof {
                assert(false);
            }
            return Vec::new();
        },
    }
    let dec = if key.len() == KEY128_SIZE {
        gcm::aes128gcm_decrypt_in_place_detached(key, iv, aad, &mut buffer, tag.as_slice())
    } else {
        gcm::aes256gcm_decrypt_in_place_detached(key, iv, aad, &mut buffer, tag.as_slice())
    };
    match dec {
        Ok(()) => (),
        Err(_) => {
            proof {
                assert(false);
            }
            return Vec::new();
        },
    }
    buffer
}

/// Law: for all three supported AES-CBC key sizes, decrypting what encryption
/// produced under the same key and IV validates the padding and returns the
/// original plaintext.
pub fn aes_cbc_round_trip(key: &[u8], iv: &[u8], plaintext: Vec<u8>) -> (r: Vec<u8>)
    requires
        key@.len() == KEY128_SIZE || key@.len() == KEY192_SIZE || key@.len() == KEY256_SIZE,
        iv@.len() == CBC_IV_SIZE,
        plaintext@.len() + CBC_BLOCK_SIZE <= usize::MAX,
    ensures
        r@ == plaintext@,
{
    let ghost pt0 = plaintext@;
    let plaintext_size = plaintext.len();
    let mut buffer = plaintext;
    let mut i: usize = 0;
    while i < CBC_BLOCK_SIZE
        invariant
            i <= CBC_BLOCK_SIZE,
            plaintext_size + CBC_BLOCK_SIZE <= usize::MAX,
            plaintext_size == pt0.len(),
            buffer@.len() == plaintext_size + i,
            buffer@.take(plaintext_size as int) == pt0,
        decreases CBC_BLOCK_SIZE - i,
    {
        buffer.push(0u8);
        proof {
            assert(buffer@.take(plaintext_size as int) =~= pt0);
        }
        i += 1;
    }
    let enc = if key.len() == KEY128_SIZE {
        cbc_mode::aes128cbc_encrypt(key, iv, &mut buffer, plaintext_size)
    } else if key.len() == KEY192_SIZE {
        cbc_mode::aes192cbc_encrypt(key, iv, &mut buffer, plaintext_size)
    } else {
        cbc_mode::aes256cbc_encrypt(key, iv, &mut buffer, plaintext_size)
    };
    let ciphertext_len = match enc {
        Ok(n) => n,
        Err(_) => {
            proof {
                assert(false);
            }
            return Vec::new();
        },
    };
    buffer.truncate(ciphertext_len);
    proof {
        lemma_pkcs7_round_trip(pt0);
    }
    let dec = if key.len() == KEY128_SIZE {
        cbc_mode::aes128cbc_decrypt(key, iv, &mut buffer)
    } else if key.len() == KEY192_SIZE {
        cbc_mode::aes192cbc_decrypt(key, iv, &mut buffer)
    } else {
        cbc_mode::aes256cbc_decrypt(key, iv, &mut buffer)
    };
    let plaintext_len = match dec {
        Ok(n) => n,
        Err(_) => {
            proof {
                assert(false);
            }
            return Vec::new();
        },
    };
    buffer.truncate(plaintext_len);
    proof {
        assert(pkcs7_pad(pt0).take(pt0.len() as int) =~= pt0);
    }
    buffer
}

/// Law: decrypting what ChaCha20-Poly1305 encryption produced, under the same
/// key, nonce and associated data and with the tag it computed, returns the
/// original plaintext.
pub fn chachapoly_round_trip(key: &[u8], nonce: &[u8], aad: &[u8], plaintext: Vec<u8>) -> (r: Vec<
    u8,
>)
    requires
        key@.len() == CHACHAPOLY_KEY_SIZE,
        nonce@.len() == CHACHAPOLY_NONCE_SIZE,
        plaintext@.len() < CHACHAPOLY_MSG_LIMIT,
    ensures
        r@ == plaintext@,
{
    let mut buffer = plaintext;
    let tag = match chachapoly::encrypt_in_place_detached(key, nonce, aad, &mut buffer) {
        Ok(t) => t,
        Err(_) => {
            proof {
                assert(false);
            }
            return Vec::new();
        },
    };
    match chachapoly::decrypt_in_place_detached(key, nonce, aad, &mut buffer, tag.as_slice()) {
        Ok(()) => (),
        Err(_) => {
            proof {
                assert(false);
            }
            return Vec::new();
        },
    }
    buffer
}

/// Law: flipping any bit of the detached tag before AES-GCM decryption is
/// detected: decryption fails with the verification-failure error.
pub fn aes_gcm_tag_tamper_detected(
    key: &[u8],
    iv: &[u8],
    aad: &[u8],
    plaintext: Vec<u8>,
    flip_index: usize,
    flip_mask: u8,
) -> (r: Result<(), crypto::Error>)
    requires
        key@.len() == KEY128_SIZE || key@.len() == KEY256_SIZE,
        iv@.len() == GCM_IV_SIZE,
        plaintext@.len() <= GCM_P_MAX,
        aad@.len() <= GCM_A_MAX,
        flip_index < GCM_TAG_SIZE,
        flip_mask != 0,
    ensures
        r == Err::<(), crypto::Error>(crypto::Error::Decrypt),
{
    let mut buffer = plaintext;
    let mut tag = zeroed_buffer(GCM_TAG_SIZE);
    let enc = if key.len() == KEY128_SIZE {
        gcm::aes128gcm_encrypt_in_place_detached(key, iv, aad, &mut buffer, &mut tag)
    } else {
        gcm::aes256gcm_encrypt_in_place_detached(key, iv, aad, &mut buffer, &mut tag)
    };
    match enc {
        Ok(()) => (),
        Err(_) => {
            proof {
                assert(false);
            }
            return Err(crypto::Error::Decrypt);
        },
    }
    let b = tag[flip_index];
    let flipped: u8 = b ^ flip_mask;
    proof {
        assert(flip_mask != 0 ==> (b ^ flip_mask) != b) by (bit_vector);
    }
    tag[flip_index] = flipped;
    if key.len() == KEY128_SIZE {
        gcm::aes128gcm_decrypt_in_place_detached(key, iv, aad, &mut buffer, tag.as_slice())
    } else {
        gcm::aes256gcm_decrypt_in_place_detached(key, iv, aad, &mut buffer, tag.as_slice())
    }
}

/// Law: flipping any bit of the detached tag before ChaCha20-Poly1305
/// decryption is detected: decryption fails with the verification-failure
/// error.
pub fn chachapoly_tag_tamper_detected(
    key: &[u8],
    nonce: &[u8],
    aad: &[u8],
    plaintext: Vec<u8>,
    flip_index: usize,
    flip_mask: u8,
) -> (r: Result<(), crypto::Error>)
    requires
        key@.len() == CHACHAPOLY_KEY_SIZE,
        nonce@.len() == CHACHAPOLY_NONCE_SIZE,
        plaintext@.len() < CHACHAPOLY_MSG_LIMIT,
        flip_index < CHACHAPOLY_TAG_SIZE,
        flip_mask != 0,
    ensures
        r == Err::<(), crypto::Error>(crypto::Error::Decrypt),
{
    let mut buffer = plaintext;
    let mut tag = match chachapoly::encrypt_in_place_detached(key, nonce, aad, &mut buffer) {
        Ok(t) => t,
        Err(_) => {
            proof {
                assert(false);
            }
            return Err(crypto::Error::Decrypt);
        },
    };
    let b = tag[flip_index];
    let flipped: u8 = b ^ flip_mask;
    proof {
        assert(flip_mask != 0 ==> (b ^ flip_mask) != b) by (bit_vector);
    }
    tag[flip_index] = flipped;
    chachapoly::decrypt_in_place_detached(key, nonce, aad, &mut buffer, tag.as_slice())
}

/// Law: an external-key AES-GCM request whose key length is outside the
/// supported set yields exactly the invalid-key-size crypto error, with the
/// request's own identifiers; the key is never truncated or extended.
pub proof fn lemma_gcm_external_key_size_validated(
    c: ClientId,
    q: RequestId,
    key: Seq<u8>,
    iv: Seq<u8>,
    data: Seq<u8>,
    aad: Seq<u8>,
    tag: Seq<u8>,
    r: Response,
)
    requires
        key.len() != KEY128_SIZE && key.len() != KEY256_SIZE,
        gcm_encrypt_keyed_outcome(c, q, key, iv, data, aad, tag, r) || gcm_decrypt_keyed_outcome(
            c,
            q,
            key,
            iv,
            data,
            aad,
            tag,
            r,
        ),
    ensures
        r == error_response(c, q, jobs::Error::Crypto(crypto::Error::InvalidSymmetricKeySize)),
{
}

/// Law: an external-key AES-CBC request whose key length is outside the
/// supported set yields exactly the invalid-key-size crypto error.
pub proof fn lemma_cbc_external_key_size_validated(
    c: ClientId,
    q: RequestId,
    key: Seq<u8>,
    iv: Seq<u8>,
    data: Seq<u8>,
    plaintext_size: int,
    r: Response,
)
    requires
        !supported_aes_key(key),
        cbc_encrypt_keyed_outcome(c, q, key, iv, data, plaintext_size, r)
            || cbc_decrypt_keyed_outcome(c, q, key, iv, data, r),
    ensures
        r == error_response(c, q, jobs::Error::Crypto(crypto::Error::InvalidSymmetricKeySize)),
{
}

/// Law: an external-key ChaCha20-Poly1305 request whose key length is not the
/// one supported size yields exactly the invalid-key-size crypto error.
pub proof fn lemma_chachapoly_external_key_size_validated(
    c: ClientId,
    q: RequestId,
    key: Seq<u8>,
    nonce: Seq<u8>,
    data: Seq<u8>,
    aad: Seq<u8>,
    tag: Seq<u8>,
    r: Response,
)
    requires
        key.len() != CHACHAPOLY_KEY_SIZE,
        chachapoly_encrypt_keyed_outcome(c, q, key, nonce, data, aad, tag, r)
            || chachapoly_decrypt_keyed_outcome(c, q, key, nonce, data, aad, tag, r),
    ensures
        r == error_response(c, q, jobs::Error::Crypto(crypto::Error::InvalidSymmetricKeySize)),
{
}

/// Law: an internal-key GCM request against a stored 192-bit key yields the
/// invalid-key-type error, since 192-bit GCM is not offered.
pub proof fn lemma_gcm_rejects_192bit_stored_key(
    c: ClientId,
    q: RequestId,
    key: Seq<u8>,
    iv: Seq<u8>,
    data: Seq<u8>,
    aad: Seq<u8>,
    tag: Seq<u8>,
    r: Response,
)
    requires
        gcm_encrypt_with_key_outcome(c, q, key, KeyType::Symmetric192Bits, iv, data, aad, tag, r)
            || gcm_decrypt_with_key_outcome(
            c,
            q,
            key,
            KeyType::Symmetric192Bits,
            iv,
            data,
            aad,
            tag,
            r,
        ),
    ensures
        r == error_response(c, q, jobs::Error::KeyStore(crate::keystore::Error::InvalidKeyType)),
{
}

/// Law: a CBC request against the same stored 192-bit key succeeds whenever
/// its buffer and IV are well-formed: the 192-bit size is in the CBC set.
pub proof fn lemma_cbc_accepts_192bit_stored_key(
    c: ClientId,
    q: RequestId,
    key: Seq<u8>,
    iv: Seq<u8>,
    pt0: Seq<u8>,
    plaintext_size: int,
    r: Response,
)
    requires
        key.len() == KEY192_SIZE,
        iv.len() == CBC_IV_SIZE,
        0 <= plaintext_size,
        pt0.len() >= plaintext_size + (16 - plaintext_size % 16),
        cbc_encrypt_with_key_outcome(c, q, key, KeyType::Symmetric192Bits, iv, pt0, plaintext_size, r),
    ensures
        r matches Response::EncryptAesCbc { client_id, request_id, buffer } && client_id == c
            && request_id == q,
{
}

/// Law: a ChaCha20-Poly1305 worker configured without a key store answers
/// every internal-key request with exactly the no-key-store error.
pub proof fn lemma_no_key_store_mode(
    c: ClientId,
    q: RequestId,
    nonce: Seq<u8>,
    data: Seq<u8>,
    aad: Seq<u8>,
    tag: Seq<u8>,
    r: Response,
)
    requires
        chachapoly_encrypt_internal_outcome(c, q, false, nonce, data, aad, tag, r)
            || chachapoly_decrypt_internal_outcome(c, q, false, nonce, data, aad, tag, r),
    ensures
        r == error_response(c, q, jobs::Error::NoKeyStore),
{
}

/// Law: responses to two requests with different identifiers are themselves
/// distinctly addressed: each response correlates to exactly its own request.
pub proof fn lemma_response_isolation(
    req1: Request,
    req2: Request,
    r1: Response,
    r2: Response,
)
    requires
        correlated(req1, r1),
        correlated(req2, r2),
        req1.client() != req2.client() || req1.request() != req2.request(),
    ensures
        r1.client() != r2.client() || r1.request() != r2.request(),
{
}

} // verus!
