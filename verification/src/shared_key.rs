//! The session key of one direction of traffic.
//!
//! Both directions hash the same network key and the same three shared
//! secrets. What tells them apart is the public key that the key is bound
//! to: the recipient's.

use vstd::prelude::*;
use crate::digest::{sha256_collides, sha256_digest};
use crate::hasher::{
    double_hash, hash_input, key_input, lemma_hash_data_layout_injective, lemma_key_input_differs,
    SessionKey, SharedKeyData, SharedKeyHashData,
};
use crate::keys::{
    ClientPublicKey, NetworkKey, PublicKey, ServerPublicKey, SharedA, SharedB, SharedC,
};

verus! {

/// The session key bound to `pk`:
/// `sha256(sha256(sha256(net_key + a + b + c)) + pk)`.
pub open spec fn shared_key(
    pk: Seq<u8>,
    net_key: Seq<u8>,
    a: Seq<u8>,
    b: Seq<u8>,
    c: Seq<u8>,
) -> Seq<u8> {
    sha256_digest(key_input(double_hash(net_key, a, b, c), pk))
}

/// SHA-256 maps two different messages to one digest at one of the three
/// hashes of two derivations. Only on such inputs can two derivations that
/// differ in what they take in give the same key.
pub open spec fn derivations_collide(
    pk1: Seq<u8>,
    net_key1: Seq<u8>,
    a1: Seq<u8>,
    b1: Seq<u8>,
    c1: Seq<u8>,
    pk2: Seq<u8>,
    net_key2: Seq<u8>,
    a2: Seq<u8>,
    b2: Seq<u8>,
    c2: Seq<u8>,
) -> bool {
    let input1 = hash_input(net_key1, a1, b1, c1);
    let input2 = hash_input(net_key2, a2, b2, c2);
    ||| sha256_collides(input1, input2)
    ||| sha256_collides(sha256_digest(input1), sha256_digest(input2))
    ||| sha256_collides(
        key_input(double_hash(net_key1, a1, b1, c1), pk1),
        key_input(double_hash(net_key2, a2, b2, c2), pk2),
    )
}

/// Derives the session key that is bound to `pk`.
pub fn build_shared_key(
    pk: &PublicKey,
    net_key: &NetworkKey,
    shared_a: &SharedA,
    shared_b: &SharedB,
    shared_c: &SharedC,
) -> (key: SessionKey)
    ensures
        key@ == shared_key(pk@, net_key@, shared_a@, shared_b@, shared_c@),
{
    let double_hash = SharedKeyHashData { net_key, shared_a, shared_b, shared_c }.into_hash();

    SharedKeyData { double_hash, pk: *pk }.into_key()
}

/// The key that seals what the client sends and opens what the server
/// receives: it is bound to the server's public key.
pub fn client_to_server_key(
    server_pk: &ServerPublicKey,
    net_key: &NetworkKey,
    shared_a: &SharedA,
    shared_b: &SharedB,
    shared_c: &SharedC,
) -> (key: SessionKey)
    ensures
        key@ == shared_key(server_pk@, net_key@, shared_a@, shared_b@, shared_c@),
{
    build_shared_key(&server_pk.0, net_key, shared_a, shared_b, shared_c)
}

/// The key that seals what the server sends and opens what the client
/// receives: it is bound to the client's public key.
pub fn server_to_client_key(
    client_pk: &ClientPublicKey,
    net_key: &NetworkKey,
    shared_a: &SharedA,
    shared_b: &SharedB,
    shared_c: &SharedC,
) -> (key: SessionKey)
    ensures
        key@ == shared_key(client_pk@, net_key@, shared_a@, shared_b@, shared_c@),
{
    build_shared_key(&client_pk.0, net_key, shared_a, shared_b, shared_c)
}

/// Two keys derived from the same network key and secrets, but bound to
/// different public keys, are digests of different messages. They are
/// therefore different keys, unless SHA-256 maps those two messages to one
/// digest.
pub proof fn lemma_binding_separates_keys(
    pk1: PublicKey,
    pk2: PublicKey,
    net_key: NetworkKey,
    shared_a: SharedA,
    shared_b: SharedB,
    shared_c: SharedC,
)
    requires
        pk1 != pk2,
    ensures
        ({
            let dh = double_hash(net_key@, shared_a@, shared_b@, shared_c@);
            &&& key_input(dh, pk1@) != key_input(dh, pk2@)
            &&& !sha256_collides(key_input(dh, pk1@), key_input(dh, pk2@)) ==> shared_key(
                pk1@,
                net_key@,
                shared_a@,
                shared_b@,
                shared_c@,
            ) != shared_key(pk2@, net_key@, shared_a@, shared_b@, shared_c@)
        }),
{
    let dh = double_hash(net_key@, shared_a@, shared_b@, shared_c@);
    assert(pk1@ != pk2@) by {
        if pk1@ == pk2@ {
            assert(pk1.0 =~= pk2.0);
        }
    }
    lemma_key_input_differs(dh, pk1@, dh, pk2@);
}

/// A change of any byte of the public key, the network key or a shared
/// secret changes the derived key, unless SHA-256 maps two different messages
/// to one digest at one of the three hashes.
pub proof fn lemma_changed_input_changes_key(
    pk1: PublicKey,
    net_key1: NetworkKey,
    a1: SharedA,
    b1: SharedB,
    c1: SharedC,
    pk2: PublicKey,
    net_key2: NetworkKey,
    a2: SharedA,
    b2: SharedB,
    c2: SharedC,
)
    requires
        pk1 != pk2 || net_key1 != net_key2 || a1 != a2 || b1 != b2 || c1 != c2,
    ensures
        !derivations_collide(
            pk1@,
            net_key1@,
            a1@,
            b1@,
            c1@,
            pk2@,
            net_key2@,
            a2@,
            b2@,
            c2@,
        ) ==> shared_key(pk1@, net_key1@, a1@, b1@, c1@) != shared_key(
            pk2@,
            net_key2@,
            a2@,
            b2@,
            c2@,
        ),
{
    let x = SharedKeyHashData { net_key: &net_key1, shared_a: &a1, shared_b: &b1, shared_c: &c1 };
    let y = SharedKeyHashData { net_key: &net_key2, shared_a: &a2, shared_b: &b2, shared_c: &c2 };
    let dh1 = double_hash(net_key1@, a1@, b1@, c1@);
    let dh2 = double_hash(net_key2@, a2@, b2@, c2@);
    lemma_hash_data_layout_injective(x, y);
    assert(pk1 != pk2 ==> pk1@ != pk2@) by {
        if pk1@ == pk2@ {
            assert(pk1.0 =~= pk2.0);
        }
    }
    if dh1 != dh2 || pk1@ != pk2@ {
        lemma_key_input_differs(dh1, pk1@, dh2, pk2@);
    }
}

} // verus!
