//! What a finished handshake leaves each party with: a key and a nonce seed
//! for reading, and a key and a nonce seed for writing.

use vstd::prelude::*;
use crate::digest::sha256_collides;
use crate::hasher::{double_hash, key_input, SessionKey};
use crate::keys::{
    ClientEphPublicKey, ClientPublicKey, EphPublicKey, NetworkKey, PublicKey, ServerEphPublicKey,
    ServerPublicKey, SharedA, SharedB, SharedC,
};
use crate::nonce::{nonce_gen_start, NonceSeed};
use crate::shared_key::{
    client_to_server_key, lemma_binding_separates_keys, server_to_client_key, shared_key,
};

verus! {

/// The session material of one party. The two keys are cleared when the
/// value is dropped.
pub struct HandshakeOutcome {
    pub read_key: SessionKey,
    pub read_nonce_seed: NonceSeed,
    pub write_key: SessionKey,
    pub write_nonce_seed: NonceSeed,
}

impl Clone for HandshakeOutcome {
    fn clone(&self) -> (copy: HandshakeOutcome)
        ensures
            copy == *self,
    {
        HandshakeOutcome {
            read_key: self.read_key.clone(),
            read_nonce_seed: self.read_nonce_seed,
            write_key: self.write_key.clone(),
            write_nonce_seed: self.write_nonce_seed,
        }
    }
}

/// A `HandshakeOutcome` as four byte strings.
pub struct OutcomeBytes {
    pub read_key: Seq<u8>,
    pub read_nonce_seed: Seq<u8>,
    pub write_key: Seq<u8>,
    pub write_nonce_seed: Seq<u8>,
}

impl View for HandshakeOutcome {
    type V = OutcomeBytes;

    open spec fn view(&self) -> OutcomeBytes {
        OutcomeBytes {
            read_key: self.read_key@,
            read_nonce_seed: self.read_nonce_seed@,
            write_key: self.write_key@,
            write_nonce_seed: self.write_nonce_seed@,
        }
    }
}

/// What a party derives, whichever its role: it reads with the key bound to
/// its own long-term key and the seed made of its own ephemeral key, and
/// writes with the key bound to its counterparty's long-term key and the
/// seed made of its counterparty's ephemeral key.
pub open spec fn outcome_for(
    own_pk: Seq<u8>,
    peer_pk: Seq<u8>,
    own_eph_pk: Seq<u8>,
    peer_eph_pk: Seq<u8>,
    net_key: Seq<u8>,
    a: Seq<u8>,
    b: Seq<u8>,
    c: Seq<u8>,
) -> OutcomeBytes {
    OutcomeBytes {
        read_key: shared_key(own_pk, net_key, a, b, c),
        read_nonce_seed: nonce_gen_start(own_eph_pk, net_key),
        write_key: shared_key(peer_pk, net_key, a, b, c),
        write_nonce_seed: nonce_gen_start(peer_eph_pk, net_key),
    }
}

impl HandshakeOutcome {
    /// The client's session material.
    pub fn client_side(
        pk: &ClientPublicKey,
        server_pk: &ServerPublicKey,
        eph_pk: &ClientEphPublicKey,
        server_eph_pk: &ServerEphPublicKey,
        net_key: &NetworkKey,
        shared_a: &SharedA,
        shared_b: &SharedB,
        shared_c: &SharedC,
    ) -> (outcome: HandshakeOutcome)
        ensures
            outcome@ == outcome_for(
                pk@,
                server_pk@,
                eph_pk@,
                server_eph_pk@,
                net_key@,
                shared_a@,
                shared_b@,
                shared_c@,
            ),
    {
        HandshakeOutcome {
            read_key: server_to_client_key(pk, net_key, shared_a, shared_b, shared_c),
            read_nonce_seed: NonceSeed::new(&eph_pk.0, net_key),
            write_key: client_to_server_key(server_pk, net_key, shared_a, shared_b, shared_c),
            write_nonce_seed: NonceSeed::new(&server_eph_pk.0, net_key),
        }
    }

    /// The server's session material.
    pub fn server_side(
        pk: &ServerPublicKey,
        client_pk: &ClientPublicKey,
        eph_pk: &ServerEphPublicKey,
        client_eph_pk: &ClientEphPublicKey,
        net_key: &NetworkKey,
        shared_a: &SharedA,
        shared_b: &SharedB,
        shared_c: &SharedC,
    ) -> (outcome: HandshakeOutcome)
        ensures
            outcome@ == outcome_for(
                pk@,
                client_pk@,
                eph_pk@,
                client_eph_pk@,
                net_key@,
                shared_a@,
                shared_b@,
                shared_c@,
            ),
    {
        HandshakeOutcome {
            read_key: client_to_server_key(pk, net_key, shared_a, shared_b, shared_c),
            read_nonce_seed: NonceSeed::new(&eph_pk.0, net_key),
            write_key: server_to_client_key(client_pk, net_key, shared_a, shared_b, shared_c),
            write_nonce_seed: NonceSeed::new(&client_eph_pk.0, net_key),
        }
    }
}

/// An outcome is known byte for byte once its four byte strings are known.
pub proof fn lemma_outcome_is_its_bytes(first: HandshakeOutcome, second: HandshakeOutcome)
    ensures
        first@ == second@ <==> first == second,
{
    if first@ == second@ {
        assert(first.read_key.0 =~= second.read_key.0);
        assert(first.read_nonce_seed.0 =~= second.read_nonce_seed.0);
        assert(first.write_key.0 =~= second.write_key.0);
        assert(first.write_nonce_seed.0 =~= second.write_nonce_seed.0);
    }
}

/// The two parties of one handshake hold mirrored material: what the client
/// writes with, the server reads with, and what the server writes with, the
/// client reads with. This holds of the keys and of the nonce seeds.
pub proof fn lemma_interop_symmetry(
    client: HandshakeOutcome,
    server: HandshakeOutcome,
    client_pk: ClientPublicKey,
    server_pk: ServerPublicKey,
    client_eph_pk: ClientEphPublicKey,
    server_eph_pk: ServerEphPublicKey,
    net_key: NetworkKey,
    shared_a: SharedA,
    shared_b: SharedB,
    shared_c: SharedC,
)
    requires
        client@ == outcome_for(
            client_pk@,
            server_pk@,
            client_eph_pk@,
            server_eph_pk@,
            net_key@,
            shared_a@,
            shared_b@,
            shared_c@,
        ),
        server@ == outcome_for(
            server_pk@,
            client_pk@,
            server_eph_pk@,
            client_eph_pk@,
            net_key@,
            shared_a@,
            shared_b@,
            shared_c@,
        ),
    ensures
        client.write_key == server.read_key,
        client.read_key == server.write_key,
        client.write_nonce_seed == server.read_nonce_seed,
        client.read_nonce_seed == server.write_nonce_seed,
{
    assert(client.write_key.0 =~= server.read_key.0);
    assert(client.read_key.0 =~= server.write_key.0);
    assert(client.write_nonce_seed.0 =~= server.read_nonce_seed.0);
    assert(client.read_nonce_seed.0 =~= server.write_nonce_seed.0);
}

/// Two runs of an entry point on the same inputs give the same outcome, byte
/// for byte.
pub proof fn lemma_same_inputs_same_outcome(
    first: HandshakeOutcome,
    second: HandshakeOutcome,
    own_pk: Seq<u8>,
    peer_pk: Seq<u8>,
    own_eph_pk: Seq<u8>,
    peer_eph_pk: Seq<u8>,
    net_key: Seq<u8>,
    a: Seq<u8>,
    b: Seq<u8>,
    c: Seq<u8>,
)
    requires
        first@ == outcome_for(own_pk, peer_pk, own_eph_pk, peer_eph_pk, net_key, a, b, c),
        second@ == outcome_for(own_pk, peer_pk, own_eph_pk, peer_eph_pk, net_key, a, b, c),
    ensures
        first == second,
{
    lemma_outcome_is_its_bytes(first, second);
}

/// Where the client's and the server's long-term keys differ, a party's read
/// key and write key are digests of different messages. They are therefore
/// different keys, unless SHA-256 maps those two messages to one digest.
pub proof fn lemma_read_and_write_keys_differ(
    outcome: HandshakeOutcome,
    own_pk: PublicKey,
    peer_pk: PublicKey,
    own_eph_pk: EphPublicKey,
    peer_eph_pk: EphPublicKey,
    net_key: NetworkKey,
    shared_a: SharedA,
    shared_b: SharedB,
    shared_c: SharedC,
)
    requires
        own_pk != peer_pk,
        outcome@ == outcome_for(
            own_pk@,
            peer_pk@,
            own_eph_pk@,
            peer_eph_pk@,
            net_key@,
            shared_a@,
            shared_b@,
            shared_c@,
        ),
    ensures
        ({
            let dh = double_hash(net_key@, shared_a@, shared_b@, shared_c@);
            !sha256_collides(key_input(dh, own_pk@), key_input(dh, peer_pk@))
                ==> outcome.read_key != outcome.write_key
        }),
{
    lemma_binding_separates_keys(own_pk, peer_pk, net_key, shared_a, shared_b, shared_c);
}

} // verus!
