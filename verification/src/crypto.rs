//! Common vocabulary of the cryptographic layer: supported key sizes and the
//! error taxonomy shared by every primitive adapter.

use vstd::prelude::*;

verus! {

/// Byte length of an AES-128 key.
pub const KEY128_SIZE: usize = 16;

/// Byte length of an AES-192 key.
pub const KEY192_SIZE: usize = 24;

/// Byte length of an AES-256 key.
pub const KEY256_SIZE: usize = 32;

/// Errors of the cryptographic layer. A value of this kind is always scoped to
/// the one request that caused it and never aborts a worker.
#[derive(Clone, Copy, Debug, PartialEq, Eq, Structural)]
pub enum Error {
    /// A supplied symmetric key has a length outside the supported set.
    InvalidSymmetricKeySize,
    /// An initialization vector does not have the block cipher's size.
    InvalidIvSize,
    /// A nonce does not have the stream cipher's canonical size.
    InvalidNonceSize,
    /// A detached authentication tag buffer does not have the canonical size.
    InvalidTagSize,
    /// An in-place buffer cannot hold the requested transform.
    InvalidBufferSize,
    /// Block-cipher padding was malformed on decryption.
    InvalidPadding,
    /// The encryption primitive refused its input.
    Encrypt,
    /// The decryption primitive refused its input or the tag failed to verify.
    Decrypt,
}

} // verus!
