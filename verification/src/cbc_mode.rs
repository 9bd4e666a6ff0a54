//! AES-CBC primitive adapters with PKCS#7 padding. Encryption takes an
//! explicit logical plaintext size inside a possibly larger buffer that must
//! leave room for padding; decryption validates and strips the padding. The
//! block cipher is a trusted building block; the padding discipline and every
//! length rule are stated and checked here.

use cbc::cipher::block_padding::Pkcs7;
use cbc::cipher::{BlockDecryptMut, BlockEncryptMut, KeyIvInit};
use vstd::prelude::*;

verus! {

use crate::crypto::{Error, KEY128_SIZE, KEY192_SIZE, KEY256_SIZE};

/// Byte length of the AES block and of the CBC initialization vector.
pub const CBC_BLOCK_SIZE: usize = 16;

/// Byte length of the CBC initialization vector.
pub const CBC_IV_SIZE: usize = 16;

/// `s` extended with PKCS#7 padding to the next multiple of the block size:
/// `k` bytes of value `k`, `1 <= k <= 16`.
pub open spec fn pkcs7_pad(s: Seq<u8>) -> Seq<u8> {
    s + Seq::new(
        (16 - s.len() % 16) as nat,
        |i: int| (16 - s.len() % 16) as u8,
    )
}

/// True when `s` ends in well-formed PKCS#7 padding.
pub open spec fn pkcs7_padding_valid(s: Seq<u8>) -> bool {
    &&& s.len() > 0
    &&& s.len() % 16 == 0
    &&& 1 <= s.last() <= 16
    &&& forall|i: int| s.len() - s.last() <= i < s.len() ==> s[i] == s.last()
}

/// The payload of `s` with its PKCS#7 padding stripped, or `None` when the
/// padding is malformed.
pub open spec fn pkcs7_unpad(s: Seq<u8>) -> Option<Seq<u8>> {
    if pkcs7_padding_valid(s) {
        Some(s.take(s.len() - s.last()))
    } else {
        None
    }
}

/// Stripping PKCS#7 padding recovers exactly the padded payload.
pub proof fn lemma_pkcs7_round_trip(s: Seq<u8>)
    ensures
        pkcs7_unpad(pkcs7_pad(s)) == Some(s),
{
    let p = pkcs7_pad(s);
    let k = 16 - s.len() % 16;
    assert(p.len() == s.len() + k);
    assert(p.last() == k as u8);
    assert(pkcs7_padding_valid(p));
    assert(p.take(p.len() - p.last()) =~= s);
}

/// Ciphertext that AES-128-CBC produces from a key, an IV and a block-aligned
/// padded plaintext.
pub uninterp spec fn aes128cbc_cipher(key: Seq<u8>, iv: Seq<u8>, pt: Seq<u8>) -> Seq<u8>;

/// Padded plaintext that AES-128-CBC recovers from a key, an IV and a
/// block-aligned ciphertext.
pub uninterp spec fn aes128cbc_plain(key: Seq<u8>, iv: Seq<u8>, ct: Seq<u8>) -> Seq<u8>;

/// Ciphertext that AES-192-CBC produces from a key, an IV and a block-aligned
/// padded plaintext.
pub uninterp spec fn aes192cbc_cipher(key: Seq<u8>, iv: Seq<u8>, pt: Seq<u8>) -> Seq<u8>;

/// Padded plaintext that AES-192-CBC recovers from a key, an IV and a
/// block-aligned ciphertext.
pub uninterp spec fn aes192cbc_plain(key: Seq<u8>, iv: Seq<u8>, ct: Seq<u8>) -> Seq<u8>;

/// Ciphertext that AES-256-CBC produces from a key, an IV and a block-aligned
/// padded plaintext.
pub uninterp spec fn aes256cbc_cipher(key: Seq<u8>, iv: Seq<u8>, pt: Seq<u8>) -> Seq<u8>;

/// Padded plaintext that AES-256-CBC recovers from a key, an IV and a
/// block-aligned ciphertext.
pub uninterp spec fn aes256cbc_plain(key: Seq<u8>, iv: Seq<u8>, ct: Seq<u8>) -> Seq<u8>;

/// The CBC ciphertext under the AES size selected by `key.len()`.
pub open spec fn aes_cbc_cipher(key: Seq<u8>, iv: Seq<u8>, pt: Seq<u8>) -> Seq<u8> {
    if key.len() == KEY128_SIZE {
        aes128cbc_cipher(key, iv, pt)
    } else if key.len() == KEY192_SIZE {
        aes192cbc_cipher(key, iv, pt)
    } else {
        aes256cbc_cipher(key, iv, pt)
    }
}

/// The CBC padded plaintext under the AES size selected by `key.len()`.
pub open spec fn aes_cbc_plain(key: Seq<u8>, iv: Seq<u8>, ct: Seq<u8>) -> Seq<u8> {
    if key.len() == KEY128_SIZE {
        aes128cbc_plain(key, iv, ct)
    } else if key.len() == KEY192_SIZE {
        aes192cbc_plain(key, iv, ct)
    } else {
        aes256cbc_plain(key, iv, ct)
    }
}

/// Relies on `cbc::Encryptor<aes::Aes128>::encrypt_padded_mut` with PKCS#7
/// padding: pads the first `plaintext_size` bytes in place to the next block
/// boundary, encrypts those blocks, leaves the rest of the buffer untouched
/// and returns the ciphertext length. Decryption with the same key and IV
/// inverts the encrypted blocks.
#[verifier::external_body]
fn aes128cbc_seal(key: &[u8], iv: &[u8], buffer: &mut Vec<u8>, plaintext_size: usize) -> (r:
    usize)
    requires
        key@.len() == KEY128_SIZE,
        iv@.len() == CBC_IV_SIZE,
        old(buffer)@.len() >= plaintext_size + (16 - plaintext_size % 16),
    ensures
        final(buffer)@.len() == old(buffer)@.len(),
        r == plaintext_size + (16 - plaintext_size % 16),
        final(buffer)@.take(r as int) == aes128cbc_cipher(
            key@,
            iv@,
            pkcs7_pad(old(buffer)@.take(plaintext_size as int)),
        ),
        final(buffer)@.skip(r as int) == old(buffer)@.skip(r as int),
        aes128cbc_plain(key@, iv@, final(buffer)@.take(r as int)) == pkcs7_pad(
            old(buffer)@.take(plaintext_size as int),
        ),
{
    let enc = cbc::Encryptor::<aes::Aes128>::new_from_slices(key, iv).expect(
        "key and iv lengths are checked by the caller",
    );
    let ct = enc.encrypt_padded_mut::<Pkcs7>(buffer.as_mut_slice(), plaintext_size).expect(
        "the caller leaves room for padding",
    );
    ct.len()
}

/// Relies on `cbc::Decryptor<aes::Aes128>::decrypt_padded_mut` with PKCS#7
/// padding: decrypts the block-aligned buffer in place, then validates and
/// strips the padding, returning the payload length or nothing when the
/// padding is malformed.
#[verifier::external_body]
fn aes128cbc_open(key: &[u8], iv: &[u8], buffer: &mut Vec<u8>) -> (r: Option<usize>)
    requires
        key@.len() == KEY128_SIZE,
        iv@.len() == CBC_IV_SIZE,
        old(buffer)@.len() % 16 == 0,
    ensures
        final(buffer)@.len() == old(buffer)@.len(),
        final(buffer)@ == aes128cbc_plain(key@, iv@, old(buffer)@),
        match pkcs7_unpad(aes128cbc_plain(key@, iv@, old(buffer)@)) {
            Some(p) => r matches Some(n) && n == p.len(),
            None => r is None,
        },
{
    let dec = cbc::Decryptor::<aes::Aes128>::new_from_slices(key, iv).expect(
        "key and iv lengths are checked by the caller",
    );
    match dec.decrypt_padded_mut::<Pkcs7>(buffer.as_mut_slice()) {
        Ok(pt) => Some(pt.len()),
        Err(_) => None,
    }
}

/// Relies on `cbc::Encryptor<aes::Aes192>::encrypt_padded_mut`; same contract
/// shape as the AES-128 wrapper above.
#[verifier::external_body]
fn aes192cbc_seal(key: &[u8], iv: &[u8], buffer: &mut Vec<u8>, plaintext_size: usize) -> (r:
    usize)
    requires
        key@.len() == KEY192_SIZE,
        iv@.len() == CBC_IV_SIZE,
        old(buffer)@.len() >= plaintext_size + (16 - plaintext_size % 16),
    ensures
        final(buffer)@.len() == old(buffer)@.len(),
        r == plaintext_size + (16 - plaintext_size % 16),
        final(buffer)@.take(r as int) == aes192cbc_cipher(
            key@,
            iv@,
            pkcs7_pad(old(buffer)@.take(plaintext_size as int)),
        ),
        final(buffer)@.skip(r as int) == old(buffer)@.skip(r as int),
        aes192cbc_plain(key@, iv@, final(buffer)@.take(r as int)) == pkcs7_pad(
            old(buffer)@.take(plaintext_size as int),
        ),
{
    let enc = cbc::Encryptor::<aes::Aes192>::new_from_slices(key, iv).expect(
        "key and iv lengths are checked by the caller",
    );
    let ct = enc.encrypt_padded_mut::<Pkcs7>(buffer.as_mut_slice(), plaintext_size).expect(
        "the caller leaves room for padding",
    );
    ct.len()
}

/// Relies on `cbc::Decryptor<aes::Aes192>::decrypt_padded_mut`; same contract
/// shape as the AES-128 wrapper above.
#[verifier::external_body]
fn aes192cbc_open(key: &[u8], iv: &[u8], buffer: &mut Vec<u8>) -> (r: Option<usize>)
    requires
        key@.len() == KEY192_SIZE,
        iv@.len() == CBC_IV_SIZE,
        old(buffer)@.len() % 16 == 0,
    ensures
        final(buffer)@.len() == old(buffer)@.len(),
        final(buffer)@ == aes192cbc_plain(key@, iv@, old(buffer)@),
        match pkcs7_unpad(aes192cbc_plain(key@, iv@, old(buffer)@)) {
            Some(p) => r matches Some(n) && n == p.len(),
            None => r is None,
        },
{
    let dec = cbc::Decryptor::<aes::Aes192>::new_from_slices(key, iv).expect(
        "key and iv lengths are checked by the caller",
    );
    match dec.decrypt_padded_mut::<Pkcs7>(buffer.as_mut_slice()) {
        Ok(pt) => Some(pt.len()),
        Err(_) => None,
    }
}

/// Relies on `cbc::Encryptor<aes::Aes256>::encrypt_padded_mut`; same contract
/// shape as the AES-128 wrapper above.
#[verifier::external_body]
fn aes256cbc_seal(key: &[u8], iv: &[u8], buffer: &mut Vec<u8>, plaintext_size: usize) -> (r:
    usize)
    requires
        key@.len() == KEY256_SIZE,
        iv@.len() == CBC_IV_SIZE,
        old(buffer)@.len() >= plaintext_size + (16 - plaintext_size % 16),
    ensures
        final(buffer)@.len() == old(buffer)@.len(),
        r == plaintext_size + (16 - plaintext_size % 16),
        final(buffer)@.take(r as int) == aes256cbc_cipher(
            key@,
            iv@,
            pkcs7_pad(old(buffer)@.take(plaintext_size as int)),
        ),
        final(buffer)@.skip(r as int) == old(buffer)@.skip(r as int),
        aes256cbc_plain(key@, iv@, final(buffer)@.take(r as int)) == pkcs7_pad(
            old(buffer)@.take(plaintext_size as int),
        ),
{
    let enc = cbc::Encryptor::<aes::Aes256>::new_from_slices(key, iv).expect(
        "key and iv lengths are checked by the caller",
    );
    let ct = enc.encrypt_padded_mut::<Pkcs7>(buffer.as_mut_slice(), plaintext_size).expect(
        "the caller leaves room for padding",
    );
    ct.len()
}

/// Relies on `cbc::Decryptor<aes::Aes256>::decrypt_padded_mut`; same contract
/// shape as the AES-128 wrapper above.
#[verifier::external_body]
fn aes256cbc_open(key: &[u8], iv: &[u8], buffer: &mut Vec<u8>) -> (r: Option<usize>)
    requires
        key@.len() == KEY256_SIZE,
        iv@.len() == CBC_IV_SIZE,
        old(buffer)@.len() % 16 == 0,
    ensures
        final(buffer)@.len() == old(buffer)@.len(),
        final(buffer)@ == aes256cbc_plain(key@, iv@, old(buffer)@),
        match pkcs7_unpad(aes256cbc_plain(key@, iv@, old(buffer)@)) {
            Some(p) => r matches Some(n) && n == p.len(),
            None => r is None,
        },
{
    let dec = cbc::Decryptor::<aes::Aes256>::new_from_slices(key, iv).expect(
        "key and iv lengths are checked by the caller",
    );
    match dec.decrypt_padded_mut::<Pkcs7>(buffer.as_mut_slice()) {
        Ok(pt) => Some(pt.len()),
        Err(_) => None,
    }
}

/// Exact outcome of a CBC encryption adapter whose key size must be
/// `expected`: either a size error that leaves the buffer unchanged, or the
/// padded ciphertext in the buffer's prefix and its length returned.
pub open spec fn cbc_encrypt_result(
    expected: int,
    key: Seq<u8>,
    iv: Seq<u8>,
    pt0: Seq<u8>,
    plaintext_size: int,
    buffer1: Seq<u8>,
    r: Result<usize, Error>,
) -> bool {
    if key.len() != expected {
        r == Err::<usize, Error>(Error::InvalidSymmetricKeySize) && buffer1 == pt0
    } else if iv.len() != CBC_IV_SIZE {
        r == Err::<usize, Error>(Error::InvalidIvSize) && buffer1 == pt0
    } else if pt0.len() < plaintext_size + (16 - plaintext_size % 16) {
        r == Err::<usize, Error>(Error::InvalidBufferSize) && buffer1 == pt0
    } else {
        &&& r matches Ok(n) && n == plaintext_size + (16 - plaintext_size % 16)
            && buffer1.take(n as int) == aes_cbc_cipher(key, iv, pkcs7_pad(pt0.take(plaintext_size)))
            && buffer1.skip(n as int) == pt0.skip(n as int)
            && aes_cbc_plain(key, iv, buffer1.take(n as int)) == pkcs7_pad(
            pt0.take(plaintext_size),
        )
        &&& buffer1.len() == pt0.len()
    }
}

/// Exact outcome of a CBC decryption adapter whose key size must be
/// `expected`: either a size error that leaves the buffer unchanged, or the
/// buffer decrypted in place with the payload length returned, or a padding
/// error.
pub open spec fn cbc_decrypt_result(
    expected: int,
    key: Seq<u8>,
    iv: Seq<u8>,
    ct0: Seq<u8>,
    buffer1: Seq<u8>,
    r: Result<usize, Error>,
) -> bool {
    if key.len() != expected {
        r == Err::<usize, Error>(Error::InvalidSymmetricKeySize) && buffer1 == ct0
    } else if iv.len() != CBC_IV_SIZE {
        r == Err::<usize, Error>(Error::InvalidIvSize) && buffer1 == ct0
    } else if ct0.len() % 16 != 0 {
        r == Err::<usize, Error>(Error::InvalidBufferSize) && buffer1 == ct0
    } else {
        &&& buffer1 == aes_cbc_plain(key, iv, ct0)
        &&& buffer1.len() == ct0.len()
        &&& match pkcs7_unpad(aes_cbc_plain(key, iv, ct0)) {
            Some(p) => r matches Ok(n) && n == p.len(),
            None => r == Err::<usize, Error>(Error::InvalidPadding),
        }
    }
}

/// AES-128-CBC encryption with PKCS#7 padding of the first `plaintext_size`
/// bytes, in place; returns the ciphertext length.
pub fn aes128cbc_encrypt(key: &[u8], iv: &[u8], buffer: &mut Vec<u8>, plaintext_size: usize) -> (r:
    Result<usize, Error>)
    ensures
        final(buffer)@.len() == old(buffer)@.len(),
        cbc_encrypt_result(
            KEY128_SIZE as int,
            key@,
            iv@,
            old(buffer)@,
            plaintext_size as int,
            final(buffer)@,
            r,
        ),
        r matches Ok(n) ==> n <= final(buffer)@.len(),
{
    if key.len() != KEY128_SIZE {
        return Err(Error::InvalidSymmetricKeySize);
    }
    if iv.len() != CBC_IV_SIZE {
        return Err(Error::InvalidIvSize);
    }
    let pad: usize = CBC_BLOCK_SIZE - (plaintext_size % CBC_BLOCK_SIZE);
    if buffer.len() < pad || plaintext_size > buffer.len() - pad {
        return Err(Error::InvalidBufferSize);
    }
    let n = aes128cbc_seal(key, iv, buffer, plaintext_size);
    Ok(n)
}

/// AES-128-CBC decryption in place; validates and strips the PKCS#7 padding
/// and returns the plaintext length.
pub fn aes128cbc_decrypt(key: &[u8], iv: &[u8], buffer: &mut Vec<u8>) -> (r: Result<usize, Error>)
    ensures
        final(buffer)@.len() == old(buffer)@.len(),
        cbc_decrypt_result(KEY128_SIZE as int, key@, iv@, old(buffer)@, final(buffer)@, r),
        r matches Ok(n) ==> n <= final(buffer)@.len(),
{
    if key.len() != KEY128_SIZE {
        return Err(Error::InvalidSymmetricKeySize);
    }
    if iv.len() != CBC_IV_SIZE {
        return Err(Error::InvalidIvSize);
    }
    if buffer.len() % CBC_BLOCK_SIZE != 0 {
        return Err(Error::InvalidBufferSize);
    }
    match aes128cbc_open(key, iv, buffer) {
        Some(n) => Ok(n),
        None => Err(Error::InvalidPadding),
    }
}

/// AES-192-CBC encryption with PKCS#7 padding; see the AES-128 adapter.
pub fn aes192cbc_encrypt(key: &[u8], iv: &[u8], buffer: &mut Vec<u8>, plaintext_size: usize) -> (r:
    Result<usize, Error>)
    ensures
        final(buffer)@.len() == old(buffer)@.len(),
        cbc_encrypt_result(
            KEY192_SIZE as int,
            key@,
            iv@,
            old(buffer)@,
            plaintext_size as int,
            final(buffer)@,
            r,
        ),
        r matches Ok(n) ==> n <= final(buffer)@.len(),
{
    if key.len() != KEY192_SIZE {
        return Err(Error::InvalidSymmetricKeySize);
    }
    if iv.len() != CBC_IV_SIZE {
        return Err(Error::InvalidIvSize);
    }
    let pad: usize = CBC_BLOCK_SIZE - (plaintext_size % CBC_BLOCK_SIZE);
    if buffer.len() < pad || plaintext_size > buffer.len() - pad {
        return Err(Error::InvalidBufferSize);
    }
    let n = aes192cbc_seal(key, iv, buffer, plaintext_size);
    Ok(n)
}

/// AES-192-CBC decryption in place; see the AES-128 adapter.
pub fn aes192cbc_decrypt(key: &[u8], iv: &[u8], buffer: &mut Vec<u8>) -> (r: Result<usize, Error>)
    ensures
        final(buffer)@.len() == old(buffer)@.len(),
        cbc_decrypt_result(KEY192_SIZE as int, key@, iv@, old(buffer)@, final(buffer)@, r),
        r matches Ok(n) ==> n <= final(buffer)@.len(),
{
    if key.len() != KEY192_SIZE {
        return Err(Error::InvalidSymmetricKeySize);
    }
    if iv.len() != CBC_IV_SIZE {
        return Err(Error::InvalidIvSize);
    }
    if buffer.len() % CBC_BLOCK_SIZE != 0 {
        return Err(Error::InvalidBufferSize);
    }
    match aes192cbc_open(key, iv, buffer) {
        Some(n) => Ok(n),
        None => Err(Error::InvalidPadding),
    }
}

/// AES-256-CBC encryption with PKCS#7 padding; see the AES-128 adapter.
pub fn aes256cbc_encrypt(key: &[u8], iv: &[u8], buffer: &mut Vec<u8>, plaintext_size: usize) -> (r:
    Result<usize, Error>)
    ensures
        final(buffer)@.len() == old(buffer)@.len(),
        cbc_encrypt_result(
            KEY256_SIZE as int,
            key@,
            iv@,
            old(buffer)@,
            plaintext_size as int,
            final(buffer)@,
            r,
        ),
        r matches Ok(n) ==> n <= final(buffer)@.len(),
{
    if key.len() != KEY256_SIZE {
        return Err(Error::InvalidSymmetricKeySize);
    }
    if iv.len() != CBC_IV_SIZE {
        return Err(Error::InvalidIvSize);
    }
    let pad: usize = CBC_BLOCK_SIZE - (plaintext_size % CBC_BLOCK_SIZE);
    if buffer.len() < pad || plaintext_size > buffer.len() - pad {
        return Err(Error::InvalidBufferSize);
    }
    let n = aes256cbc_seal(key, iv, buffer, plaintext_size);
    Ok(n)
}

/// AES-256-CBC decryption in place; see the AES-128 adapter.
pub fn aes256cbc_decrypt(key: &[u8], iv: &[u8], buffer: &mut Vec<u8>) -> (r: Result<usize, Error>)
    ensures
        final(buffer)@.len() == old(buffer)@.len(),
        cbc_decrypt_result(KEY256_SIZE as int, key@, iv@, old(buffer)@, final(buffer)@, r),
        r matches Ok(n) ==> n <= final(buffer)@.len(),
{
    if key.len() != KEY256_SIZE {
        return Err(Error::InvalidSymmetricKeySize);
    }
    if iv.len() != CBC_IV_SIZE {
        return Err(Error::InvalidIvSize);
    }
    if buffer.len() % CBC_BLOCK_SIZE != 0 {
        return Err(Error::InvalidBufferSize);
    }
    match aes256cbc_open(key, iv, buffer) {
        Some(n) => Ok(n),
        None => Err(Error::InvalidPadding),
    }
}

} // verus!
