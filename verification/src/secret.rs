//! Secret-material lifecycle: a key exported from the store lives in one
//! caller-scoped buffer and is overwritten with zeros before that scope ends,
//! on every path.

use vstd::prelude::*;
use zeroize::Zeroize;

verus! {

/// True when every byte of `s` is zero.
pub open spec fn all_zero(s: Seq<u8>) -> bool {
    forall|i: int| 0 <= i < s.len() ==> s[i] == 0u8
}

/// Relies on `zeroize::Zeroize` for `[u8]`: overwrites every element with its
/// default value, zero, keeping the length, through a write the compiler will
/// not elide.
#[verifier::external_body]
pub fn zeroize_key_buffer(buffer: &mut Vec<u8>)
    ensures
        final(buffer)@.len() == old(buffer)@.len(),
        all_zero(final(buffer)@),
{
    buffer.as_mut_slice().zeroize();
}

/// A fresh all-zero key buffer of the given size.
pub fn zeroed_buffer(size: usize) -> (r: Vec<u8>)
    ensures
        r@.len() == size,
        all_zero(r@),
{
    let mut buffer: Vec<u8> = Vec::new();
    while buffer.len() < size
        invariant
            buffer@.len() <= size,
            all_zero(buffer@),
        decreases size - buffer.len(),
    {
        buffer.push(0u8);
    }
    buffer
}

} // verus!
