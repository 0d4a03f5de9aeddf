//! The last step of a secret handshake: from the network key, the parties'
//! public keys and the three Diffie-Hellman secrets to the two directional
//! session keys and the two nonce seeds.
//!
//! Each session key is `sha256(sha256(sha256(net_key + a + b + c)) + pk)`,
//! where `pk` is the long-term public key of the party that reads with the
//! key. Each nonce seed is made of the network key and the ephemeral public
//! key of the party that reads with it.
//!
//! SHA-256 and the nonce seed are computed by `ssb_crypto`. Their results
//! appear in the contracts under the names [`digest::sha256_digest`] and
//! [`nonce::nonce_gen_start`]; everything around them is verified.

pub mod bytes;
pub mod digest;
pub mod erase;
pub mod error;
pub mod hasher;
pub mod keys;
pub mod nonce;
pub mod outcome;
pub mod shared_key;

pub use error::KeyError;
pub use hasher::{SessionKey, SharedKeyData, SharedKeyHash, SharedKeyHashData};
pub use keys::{
    ClientEphPublicKey, ClientPublicKey, EphPublicKey, NetworkKey, PublicKey, ServerEphPublicKey,
    ServerPublicKey, SharedA, SharedB, SharedC, SharedSecret,
};
pub use nonce::NonceSeed;
pub use outcome::HandshakeOutcome;
pub use shared_key::{build_shared_key, client_to_server_key, server_to_client_key};
