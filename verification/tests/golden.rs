use handshake_outcome::{
    build_shared_key, client_to_server_key, server_to_client_key, ClientEphPublicKey,
    ClientPublicKey, EphPublicKey, HandshakeOutcome, NetworkKey, NonceSeed, PublicKey,
    ServerEphPublicKey, ServerPublicKey, SharedA, SharedB, SharedC, SharedKeyData, SharedKeyHash,
    SharedKeyHashData, SharedSecret,
};

/// 32 bytes that count up from `base`.
fn pattern(base: u8) -> [u8; 32] {
    let mut out = [0u8; 32];
    for i in 0..32 {
        out[i] = base.wrapping_add(i as u8);
    }
    out
}

fn net_key() -> NetworkKey {
    NetworkKey(pattern(0x00))
}

fn shared_a() -> SharedA {
    SharedA(SharedSecret(pattern(0x20)))
}

fn shared_b() -> SharedB {
    SharedB(SharedSecret(pattern(0x40)))
}

fn shared_c() -> SharedC {
    SharedC(SharedSecret(pattern(0x60)))
}

fn client_pk() -> ClientPublicKey {
    ClientPublicKey(PublicKey(pattern(0x80)))
}

fn server_pk() -> ServerPublicKey {
    ServerPublicKey(PublicKey(pattern(0xa0)))
}

fn client_eph_pk() -> ClientEphPublicKey {
    ClientEphPublicKey(EphPublicKey(pattern(0xc0)))
}

fn server_eph_pk() -> ServerEphPublicKey {
    ServerEphPublicKey(EphPublicKey(pattern(0xe0)))
}

// sha256(sha256(net_key + a + b + c))
const DOUBLE_HASH: [u8; 32] = [
    0xc0, 0xd1, 0x74, 0x75, 0xe4, 0x2f, 0x83, 0x06, 0xbb, 0x15, 0x40, 0x2b, 0xf3, 0x9b, 0xc4, 0x31,
    0x66, 0x3d, 0x8d, 0xe5, 0x2a, 0xd2, 0x76, 0x5c, 0x3d, 0x15, 0xf0, 0xb2, 0x4d, 0x9e, 0xca, 0xab,
];

// sha256(DOUBLE_HASH + client_pk)
const KEY_BOUND_TO_CLIENT: [u8; 32] = [
    0xab, 0xff, 0x6f, 0xed, 0x43, 0xb7, 0x0d, 0xef, 0x0b, 0xb8, 0xbd, 0x81, 0x3b, 0xb1, 0x1b, 0xd1,
    0x17, 0xa3, 0x4d, 0xdc, 0x39, 0x52, 0xc4, 0xfa, 0xf4, 0xa5, 0x67, 0xe2, 0x05, 0x55, 0x28, 0xd0,
];

// sha256(DOUBLE_HASH + server_pk)
const KEY_BOUND_TO_SERVER: [u8; 32] = [
    0x47, 0xe4, 0xd3, 0x92, 0x27, 0x12, 0x2d, 0xe3, 0x07, 0x3a, 0x1c, 0xf3, 0xf3, 0xc8, 0xa6, 0xf9,
    0xa5, 0x83, 0x9e, 0x4e, 0xc9, 0xbd, 0x8f, 0x6e, 0x0b, 0x91, 0x80, 0xfe, 0xc2, 0x94, 0x96, 0x32,
];

// first 24 bytes of hmac-sha512(key = net_key, message = client_eph_pk)
const SEED_OF_CLIENT_EPH: [u8; 24] = [
    0xf2, 0x6a, 0xb9, 0x35, 0x4f, 0x62, 0x40, 0x67, 0x34, 0x99, 0x26, 0x71, 0x9b, 0xc3, 0xeb, 0x70,
    0x74, 0x87, 0x0a, 0xc2, 0xf4, 0x0a, 0x40, 0xa0,
];

// first 24 bytes of hmac-sha512(key = net_key, message = server_eph_pk)
const SEED_OF_SERVER_EPH: [u8; 24] = [
    0x7b, 0x39, 0x16, 0xad, 0x65, 0x46, 0xcc, 0xe9, 0xe7, 0xc2, 0xe0, 0x03, 0xd6, 0x60, 0xff, 0xbf,
    0x6a, 0x8f, 0x2d, 0x15, 0xeb, 0x3f, 0x17, 0x4a,
];

#[test]
fn client_side_matches_golden_vectors() {
    let outcome = HandshakeOutcome::client_side(
        &client_pk(),
        &server_pk(),
        &client_eph_pk(),
        &server_eph_pk(),
        &net_key(),
        &shared_a(),
        &shared_b(),
        &shared_c(),
    );
    assert_eq!(outcome.read_key.0, KEY_BOUND_TO_CLIENT);
    assert_eq!(outcome.read_nonce_seed.0, SEED_OF_CLIENT_EPH);
    assert_eq!(outcome.write_key.0, KEY_BOUND_TO_SERVER);
    assert_eq!(outcome.write_nonce_seed.0, SEED_OF_SERVER_EPH);
}

#[test]
fn server_side_matches_golden_vectors() {
    let outcome = HandshakeOutcome::server_side(
        &server_pk(),
        &client_pk(),
        &server_eph_pk(),
        &client_eph_pk(),
        &net_key(),
        &shared_a(),
        &shared_b(),
        &shared_c(),
    );
    assert_eq!(outcome.read_key.0, KEY_BOUND_TO_SERVER);
    assert_eq!(outcome.read_nonce_seed.0, SEED_OF_SERVER_EPH);
    assert_eq!(outcome.write_key.0, KEY_BOUND_TO_CLIENT);
    assert_eq!(outcome.write_nonce_seed.0, SEED_OF_CLIENT_EPH);
}

#[test]
fn into_hash_matches_golden_vector() {
    let (nk, a, b, c) = (net_key(), shared_a(), shared_b(), shared_c());
    let data = SharedKeyHashData { net_key: &nk, shared_a: &a, shared_b: &b, shared_c: &c };
    assert_eq!(data.into_hash().0, DOUBLE_HASH);
}

#[test]
fn into_hash_is_not_the_single_hash() {
    // sha256(net_key + a + b + c), hashed once only
    let single: [u8; 32] = [
        0x47, 0x1f, 0xb9, 0x43, 0xaa, 0x23, 0xc5, 0x11, 0xf6, 0xf7, 0x2f, 0x8d, 0x16, 0x52, 0xd9,
        0xc8, 0x80, 0xcf, 0xa3, 0x92, 0xad, 0x80, 0x50, 0x31, 0x20, 0x54, 0x77, 0x03, 0xe5, 0x6a,
        0x2b, 0xe5,
    ];
    let (nk, a, b, c) = (net_key(), shared_a(), shared_b(), shared_c());
    let data = SharedKeyHashData { net_key: &nk, shared_a: &a, shared_b: &b, shared_c: &c };
    assert_ne!(data.into_hash().0, single);
}

#[test]
fn into_key_matches_golden_vectors() {
    let to_client = SharedKeyData { double_hash: SharedKeyHash(DOUBLE_HASH), pk: client_pk().0 };
    assert_eq!(to_client.into_key().0, KEY_BOUND_TO_CLIENT);
    let to_server = SharedKeyData { double_hash: SharedKeyHash(DOUBLE_HASH), pk: server_pk().0 };
    assert_eq!(to_server.into_key().0, KEY_BOUND_TO_SERVER);
}

#[test]
fn build_shared_key_matches_golden_vectors() {
    let key = build_shared_key(&client_pk().0, &net_key(), &shared_a(), &shared_b(), &shared_c());
    assert_eq!(key.0, KEY_BOUND_TO_CLIENT);
    let key = build_shared_key(&server_pk().0, &net_key(), &shared_a(), &shared_b(), &shared_c());
    assert_eq!(key.0, KEY_BOUND_TO_SERVER);
}

#[test]
fn directional_keys_match_golden_vectors() {
    let c2s = client_to_server_key(&server_pk(), &net_key(), &shared_a(), &shared_b(), &shared_c());
    assert_eq!(c2s.0, KEY_BOUND_TO_SERVER);
    let s2c = server_to_client_key(&client_pk(), &net_key(), &shared_a(), &shared_b(), &shared_c());
    assert_eq!(s2c.0, KEY_BOUND_TO_CLIENT);
}

#[test]
fn nonce_seed_matches_golden_vectors() {
    assert_eq!(NonceSeed::new(&client_eph_pk().0, &net_key()).0, SEED_OF_CLIENT_EPH);
    assert_eq!(NonceSeed::new(&server_eph_pk().0, &net_key()).0, SEED_OF_SERVER_EPH);
}

#[test]
fn nonce_seed_is_keyed_by_the_network_key() {
    // the same ephemeral key on the main network
    let main_net = NetworkKey([
        0xd4, 0xa1, 0xcb, 0x88, 0xa6, 0x6f, 0x02, 0xf8, 0xdb, 0x63, 0x5c, 0xe2, 0x64, 0x41, 0xcc,
        0x5d, 0xac, 0x1b, 0x08, 0x42, 0x0c, 0xea, 0xac, 0x23, 0x08, 0x39, 0xb7, 0x55, 0x84, 0x5a,
        0x9f, 0xfb,
    ]);
    let expected: [u8; 24] = [
        0xf1, 0xdd, 0x16, 0xbe, 0x0f, 0x6b, 0x8c, 0x72, 0x7f, 0x42, 0xee, 0x2c, 0x25, 0x0f, 0xd5,
        0x23, 0x0c, 0x63, 0x20, 0xb4, 0x83, 0xe4, 0x0a, 0x7f,
    ];
    assert_eq!(NonceSeed::new(&client_eph_pk().0, &main_net).0, expected);
}

#[test]
fn key_on_the_main_network_matches_golden_vector() {
    let main_net = NetworkKey([
        0xd4, 0xa1, 0xcb, 0x88, 0xa6, 0x6f, 0x02, 0xf8, 0xdb, 0x63, 0x5c, 0xe2, 0x64, 0x41, 0xcc,
        0x5d, 0xac, 0x1b, 0x08, 0x42, 0x0c, 0xea, 0xac, 0x23, 0x08, 0x39, 0xb7, 0x55, 0x84, 0x5a,
        0x9f, 0xfb,
    ]);
    let expected: [u8; 32] = [
        0xf9, 0x1a, 0x77, 0x25, 0x0d, 0x5a, 0x46, 0xee, 0xf4, 0x80, 0x50, 0x52, 0xc8, 0x39, 0x97,
        0x52, 0xd0, 0x5a, 0xed, 0x4e, 0x79, 0x3a, 0x84, 0x09, 0xaa, 0xf1, 0x30, 0xb7, 0xd3, 0x92,
        0x81, 0xb1,
    ];
    let key = build_shared_key(&client_pk().0, &main_net, &shared_a(), &shared_b(), &shared_c());
    assert_eq!(key.0, expected);
}

#[test]
fn all_zero_inputs_match_golden_vectors() {
    let zero = [0u8; 32];
    let outcome = HandshakeOutcome::client_side(
        &ClientPublicKey(PublicKey(zero)),
        &ServerPublicKey(PublicKey(zero)),
        &ClientEphPublicKey(EphPublicKey(zero)),
        &ServerEphPublicKey(EphPublicKey(zero)),
        &NetworkKey(zero),
        &SharedA(SharedSecret(zero)),
        &SharedB(SharedSecret(zero)),
        &SharedC(SharedSecret(zero)),
    );
    let key: [u8; 32] = [
        0xab, 0x59, 0xdf, 0x1e, 0x99, 0xd0, 0x21, 0x51, 0xcf, 0x2e, 0xb0, 0x9d, 0xf0, 0xe1, 0x98,
        0xa3, 0x30, 0x19, 0x69, 0x5e, 0x08, 0xb8, 0x6c, 0x16, 0x01, 0x96, 0x90, 0x36, 0xee, 0x46,
        0x04, 0xb3,
    ];
    let seed: [u8; 24] = [
        0xba, 0xe4, 0x6c, 0xeb, 0xeb, 0xbb, 0x90, 0x40, 0x9a, 0xbc, 0x5a, 0xcf, 0x7a, 0xc2, 0x1f,
        0xdb, 0x33, 0x9c, 0x01, 0xce, 0x15, 0x19, 0x2c, 0x52,
    ];
    assert_eq!(outcome.read_key.0, key);
    assert_eq!(outcome.write_key.0, key);
    assert_eq!(outcome.read_nonce_seed.0, seed);
    assert_eq!(outcome.write_nonce_seed.0, seed);
}

fn hex(bytes: &[u8]) -> String {
    let mut out = String::new();
    for byte in bytes {
        out.push_str(&format!("{:02x}", byte));
    }
    out
}

#[test]
fn outcome_in_hex_matches_golden_vectors() {
    let outcome = HandshakeOutcome::client_side(
        &client_pk(),
        &server_pk(),
        &client_eph_pk(),
        &server_eph_pk(),
        &net_key(),
        &shared_a(),
        &shared_b(),
        &shared_c(),
    );
    assert_eq!(
        hex(&outcome.read_key.0),
        "abff6fed43b70def0bb8bd813bb11bd117a34ddc3952c4faf4a567e2055528d0"
    );
    assert_eq!(
        hex(&outcome.write_key.0),
        "47e4d39227122de3073a1cf3f3c8a6f9a5839e4ec9bd8f6e0b9180fec2949632"
    );
    assert_eq!(
        hex(&outcome.read_nonce_seed.0),
        "f26ab9354f624067349926719bc3eb7074870ac2f40a40a0"
    );
    assert_eq!(
        hex(&outcome.write_nonce_seed.0),
        "7b3916ad6546cce9e7c2e003d660ffbf6a8f2d15eb3f174a"
    );
}

#[test]
fn other_field_orders_give_other_keys() {
    // sha256(sha256(sha256(a + net_key + b + c)) + client_pk): the first two
    // fields in the wrong order
    let swapped = "790331175f909d3d12a9a8b331c37f343b1482c85bb4363beba6726c22a54542";
    let key = build_shared_key(&client_pk().0, &net_key(), &shared_a(), &shared_b(), &shared_c());
    assert_ne!(hex(&key.0), swapped);
}
