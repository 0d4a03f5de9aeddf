//! Clearing key material from memory.

use vstd::prelude::*;

verus! {

/// A byte string of `len` zeros.
pub open spec fn zeros(len: nat) -> Seq<u8> {
    Seq::new(len, |i: int| 0u8)
}

/// Calls `ssb_crypto::utils::memzero`, which is libsodium's `sodium_memzero`:
/// an overwrite that the compiler does not remove.
///
/// Trusted: every byte of the array is zero afterwards, and the call does
/// not unwind.
#[verifier::external_body]
pub(crate) fn memzero<const N: usize>(bytes: &mut [u8; N])
    ensures
        final(bytes)@ == zeros(N as nat),
    opens_invariants none
    no_unwind
{
    ssb_crypto::utils::memzero(bytes)
}

} // verus!
