//! The value that a direction's nonce generator starts from.

use vstd::prelude::*;
use crate::keys::{EphPublicKey, NetworkKey};

verus! {

/// The nonce that `ssb_crypto::NonceGen::new` starts a generator with, as a
/// mathematical function of the ephemeral public key and the network key.
pub uninterp spec fn nonce_gen_start(eph_pk: Seq<u8>, net_key: Seq<u8>) -> Seq<u8>;

/// Calls `ssb_crypto::NonceGen::new` and reads the nonce it starts with.
///
/// Trusted: the returned array is the starting nonce that `NonceGen::new`
/// computes from these two keys (in its source, the first 24 bytes of the
/// HMAC-SHA-512-256 tag of the ephemeral key under the network key). The
/// first call of `next` on a generator hands out that nonce unchanged, which
/// is how it is read here. Both conversions take exactly 32 bytes, so
/// neither fails.
#[verifier::external_body]
fn starting_nonce(eph_pk: &[u8; 32], net_key: &[u8; 32]) -> (nonce: [u8; 24])
    ensures
        nonce@ == nonce_gen_start(eph_pk@, net_key@),
{
    let pk = ssb_crypto::handshake::EphPublicKey(*eph_pk);
    let net_id = ssb_crypto::NetworkKey::from_slice(net_key).unwrap();
    ssb_crypto::NonceGen::new(&pk, &net_id).next().0
}

/// The seed of one direction's nonce generator.
#[derive(Debug, Clone, Copy, PartialEq, Eq)]
pub struct NonceSeed(pub [u8; 24]);

impl View for NonceSeed {
    type V = Seq<u8>;

    open spec fn view(&self) -> Seq<u8> {
        self.0@
    }
}

impl NonceSeed {
    /// The seed for the direction whose messages are addressed to the holder
    /// of `eph_pk`, on the network named by `net_key`.
    pub fn new(eph_pk: &EphPublicKey, net_key: &NetworkKey) -> (seed: NonceSeed)
        ensures
            seed@ == nonce_gen_start(eph_pk@, net_key@),
    {
        NonceSeed(starting_nonce(&eph_pk.0, &net_key.0))
    }
}

} // verus!
