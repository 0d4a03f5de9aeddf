//! The key material that a finished handshake hands to the derivation: the
//! network key, the parties' public keys and the three shared secrets.
//!
//! Every value is a fixed array of 32 bytes. The roles (client or server,
//! long-term or ephemeral, first, second or third secret) are separate
//! types, so that no caller can pass one in the place of another.

use vstd::prelude::*;
use crate::bytes::array_from_slice;
use crate::erase::{memzero, zeros};
use crate::error::KeyError;

verus! {

/// The key that names a network. It is public and the same for all peers.
#[derive(Debug, Clone, Copy, PartialEq, Eq)]
pub struct NetworkKey(pub [u8; 32]);

impl View for NetworkKey {
    type V = Seq<u8>;

    open spec fn view(&self) -> Seq<u8> {
        self.0@
    }
}

impl NetworkKey {
    /// Reads a network key from exactly 32 bytes.
    pub fn from_slice(bytes: &[u8]) -> (r: Result<NetworkKey, KeyError>)
        ensures
            match r {
                Ok(key) => bytes@.len() == 32 && key@ == bytes@,
                Err(e) => bytes@.len() != 32 && e == (KeyError::WrongLength {
                    expected: 32,
                    found: bytes.len(),
                }),
            },
    {
        match array_from_slice::<32>(bytes) {
            Ok(a) => Ok(NetworkKey(a)),
            Err(e) => Err(e),
        }
    }
}

/// A long-term public key that identifies a party.
#[derive(Debug, Clone, Copy, PartialEq, Eq)]
pub struct PublicKey(pub [u8; 32]);

impl View for PublicKey {
    type V = Seq<u8>;

    open spec fn view(&self) -> Seq<u8> {
        self.0@
    }
}

impl PublicKey {
    /// Reads a public key from exactly 32 bytes.
    pub fn from_slice(bytes: &[u8]) -> (r: Result<PublicKey, KeyError>)
        ensures
            match r {
                Ok(key) => bytes@.len() == 32 && key@ == bytes@,
                Err(e) => bytes@.len() != 32 && e == (KeyError::WrongLength {
                    expected: 32,
                    found: bytes.len(),
                }),
            },
    {
        match array_from_slice::<32>(bytes) {
            Ok(a) => Ok(PublicKey(a)),
            Err(e) => Err(e),
        }
    }
}

/// A public key made for one handshake only.
#[derive(Debug, Clone, Copy, PartialEq, Eq)]
pub struct EphPublicKey(pub [u8; 32]);

impl View for EphPublicKey {
    type V = Seq<u8>;

    open spec fn view(&self) -> Seq<u8> {
        self.0@
    }
}

impl EphPublicKey {
    /// Reads an ephemeral public key from exactly 32 bytes.
    pub fn from_slice(bytes: &[u8]) -> (r: Result<EphPublicKey, KeyError>)
        ensures
            match r {
                Ok(key) => bytes@.len() == 32 && key@ == bytes@,
                Err(e) => bytes@.len() != 32 && e == (KeyError::WrongLength {
                    expected: 32,
                    found: bytes.len(),
                }),
            },
    {
        match array_from_slice::<32>(bytes) {
            Ok(a) => Ok(EphPublicKey(a)),
            Err(e) => Err(e),
        }
    }
}

/// A secret that both parties computed by Diffie-Hellman. Its bytes are
/// cleared when the value is dropped.
pub struct SharedSecret(pub [u8; 32]);

impl View for SharedSecret {
    type V = Seq<u8>;

    open spec fn view(&self) -> Seq<u8> {
        self.0@
    }
}

impl SharedSecret {
    /// Reads a shared secret from exactly 32 bytes.
    pub fn from_slice(bytes: &[u8]) -> (r: Result<SharedSecret, KeyError>)
        ensures
            match r {
                Ok(key) => bytes@.len() == 32 && key@ == bytes@,
                Err(e) => bytes@.len() != 32 && e == (KeyError::WrongLength {
                    expected: 32,
                    found: bytes.len(),
                }),
            },
    {
        match array_from_slice::<32>(bytes) {
            Ok(a) => Ok(SharedSecret(a)),
            Err(e) => Err(e),
        }
    }

    /// Overwrites the secret with zeros.
    pub fn erase(&mut self)
        ensures
            final(self)@ == zeros(32),
        opens_invariants none
        no_unwind
    {
        memzero(&mut self.0);
    }
}

impl Clone for SharedSecret {
    fn clone(&self) -> (copy: SharedSecret)
        ensures
            copy == *self,
    {
        SharedSecret(self.0)
    }
}

impl Drop for SharedSecret {
    fn drop(&mut self)
        ensures
            final(self)@ == zeros(32),
        opens_invariants none
        no_unwind
    {
        self.erase();
    }
}

/// The client's long-term public key.
#[derive(Debug, Clone, Copy, PartialEq, Eq)]
pub struct ClientPublicKey(pub PublicKey);

impl View for ClientPublicKey {
    type V = Seq<u8>;

    open spec fn view(&self) -> Seq<u8> {
        self.0@
    }
}

/// The server's long-term public key.
#[derive(Debug, Clone, Copy, PartialEq, Eq)]
pub struct ServerPublicKey(pub PublicKey);

impl View for ServerPublicKey {
    type V = Seq<u8>;

    open spec fn view(&self) -> Seq<u8> {
        self.0@
    }
}

/// The client's public key for this handshake.
#[derive(Debug, Clone, Copy, PartialEq, Eq)]
pub struct ClientEphPublicKey(pub EphPublicKey);

impl View for ClientEphPublicKey {
    type V = Seq<u8>;

    open spec fn view(&self) -> Seq<u8> {
        self.0@
    }
}

/// The server's public key for this handshake.
#[derive(Debug, Clone, Copy, PartialEq, Eq)]
pub struct ServerEphPublicKey(pub EphPublicKey);

impl View for ServerEphPublicKey {
    type V = Seq<u8>;

    open spec fn view(&self) -> Seq<u8> {
        self.0@
    }
}

/// The first of the three shared secrets.
pub struct SharedA(pub SharedSecret);

impl Clone for SharedA {
    fn clone(&self) -> (copy: SharedA)
        ensures
            copy == *self,
    {
        SharedA(self.0.clone())
    }
}

impl View for SharedA {
    type V = Seq<u8>;

    open spec fn view(&self) -> Seq<u8> {
        self.0@
    }
}

/// The second of the three shared secrets.
pub struct SharedB(pub SharedSecret);

impl Clone for SharedB {
    fn clone(&self) -> (copy: SharedB)
        ensures
            copy == *self,
    {
        SharedB(self.0.clone())
    }
}

impl View for SharedB {
    type V = Seq<u8>;

    open spec fn view(&self) -> Seq<u8> {
        self.0@
    }
}

/// The third of the three shared secrets.
pub struct SharedC(pub SharedSecret);

impl Clone for SharedC {
    fn clone(&self) -> (copy: SharedC)
        ensures
            copy == *self,
    {
        SharedC(self.0.clone())
    }
}

impl View for SharedC {
    type V = Seq<u8>;

    open spec fn view(&self) -> Seq<u8> {
        self.0@
    }
}

} // verus!
