//! SHA-256, as computed by `ssb_crypto`.

use vstd::prelude::*;

verus! {

/// The SHA-256 digest of a byte string, as a mathematical function of the
/// message alone.
pub uninterp spec fn sha256_digest(message: Seq<u8>) -> Seq<u8>;

/// Two different messages with one digest. SHA-256 has such pairs, since it
/// maps all byte strings to 32 bytes; none is known.
pub open spec fn sha256_collides(x: Seq<u8>, y: Seq<u8>) -> bool {
    x != y && sha256_digest(x) == sha256_digest(y)
}

/// Calls `ssb_crypto::hash::hash`, which is libsodium's one-shot SHA-256.
///
/// Trusted: the returned array is the SHA-256 digest of `message`. Nothing
/// else is claimed of the digest's value.
#[verifier::external_body]
pub(crate) fn sha256(message: &[u8]) -> (digest: [u8; 32])
    ensures
        digest@ == sha256_digest(message@),
{
    ssb_crypto::hash::hash(message).0
}

} // verus!
