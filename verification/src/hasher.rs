//! The two hash inputs of the key derivation, and the digests made of them.
//!
//! Both inputs are plain concatenations of fixed-width fields: no padding, no
//! separators, no length prefixes. Any other layout would derive keys that no
//! other implementation of the handshake derives.

use vstd::prelude::*;
use crate::bytes::{array_from_prefix, write_at};
use crate::digest::{sha256, sha256_digest};
use crate::erase::{memzero, zeros};
use crate::error::KeyError;
use crate::keys::{NetworkKey, PublicKey, SharedA, SharedB, SharedC};

verus! {

/// The first hash input: network key, then the three shared secrets.
pub open spec fn hash_input(net_key: Seq<u8>, a: Seq<u8>, b: Seq<u8>, c: Seq<u8>) -> Seq<u8> {
    net_key + a + b + c
}

/// The digest of the digest of the first hash input.
pub open spec fn double_hash(net_key: Seq<u8>, a: Seq<u8>, b: Seq<u8>, c: Seq<u8>) -> Seq<u8> {
    sha256_digest(sha256_digest(hash_input(net_key, a, b, c)))
}

/// The second hash input: the double hash, then the public key that the
/// session key is bound to.
pub open spec fn key_input(double_hash: Seq<u8>, pk: Seq<u8>) -> Seq<u8> {
    double_hash + pk
}

/// The key that is taken from a digest: its first 32 bytes.
pub open spec fn key_of_digest(digest: Seq<u8>) -> Seq<u8> {
    digest.take(32)
}

/// The digest that binds the network key and the three shared secrets.
/// Whoever knows it can derive both session keys, so its bytes are cleared
/// when the value is dropped.
pub struct SharedKeyHash(pub [u8; 32]);

impl View for SharedKeyHash {
    type V = Seq<u8>;

    open spec fn view(&self) -> Seq<u8> {
        self.0@
    }
}

impl SharedKeyHash {
    /// Overwrites the digest with zeros.
    pub fn erase(&mut self)
        ensures
            final(self)@ == zeros(32),
        opens_invariants none
        no_unwind
    {
        memzero(&mut self.0);
    }
}

impl Clone for SharedKeyHash {
    fn clone(&self) -> (copy: SharedKeyHash)
        ensures
            copy == *self,
    {
        SharedKeyHash(self.0)
    }
}

impl Drop for SharedKeyHash {
    fn drop(&mut self)
        ensures
            final(self)@ == zeros(32),
        opens_invariants none
        no_unwind
    {
        self.erase();
    }
}

/// The symmetric key for one direction of traffic. Its bytes are cleared when
/// the value is dropped.
pub struct SessionKey(pub [u8; 32]);

impl View for SessionKey {
    type V = Seq<u8>;

    open spec fn view(&self) -> Seq<u8> {
        self.0@
    }
}

impl SessionKey {
    /// Takes the key from a digest. A digest longer than the key gives its
    /// first 32 bytes; a shorter one is refused, so that no short key is ever
    /// made.
    pub fn from_digest(digest: &[u8]) -> (r: Result<SessionKey, KeyError>)
        ensures
            match r {
                Ok(key) => digest@.len() >= 32 && key@ == key_of_digest(digest@),
                Err(e) => digest@.len() < 32 && e == (KeyError::DigestTooShort {
                    needed: 32,
                    found: digest.len(),
                }),
            },
    {
        if digest.len() < 32 {
            return Err(KeyError::DigestTooShort { needed: 32, found: digest.len() });
        }
        Ok(SessionKey(array_from_prefix(digest)))
    }

    /// Overwrites the key with zeros.
    pub fn erase(&mut self)
        ensures
            final(self)@ == zeros(32),
        opens_invariants none
        no_unwind
    {
        memzero(&mut self.0);
    }
}

impl Clone for SessionKey {
    fn clone(&self) -> (copy: SessionKey)
        ensures
            copy == *self,
    {
        SessionKey(self.0)
    }
}

impl Drop for SessionKey {
    fn drop(&mut self)
        ensures
            final(self)@ == zeros(32),
        opens_invariants none
        no_unwind
    {
        self.erase();
    }
}

/// What the first hash takes in.
pub struct SharedKeyHashData<'a> {
    pub net_key: &'a NetworkKey,
    pub shared_a: &'a SharedA,
    pub shared_b: &'a SharedB,
    pub shared_c: &'a SharedC,
}

impl<'a> SharedKeyHashData<'a> {
    /// The bytes that are hashed.
    pub open spec fn layout(&self) -> Seq<u8> {
        hash_input(self.net_key@, self.shared_a@, self.shared_b@, self.shared_c@)
    }

    /// Writes the four fields one after the other. The array holds the three
    /// secrets: clear it after use.
    pub fn to_bytes(&self) -> (bytes: [u8; 128])
        ensures
            bytes@ == self.layout(),
    {
        let mut bytes = [0u8; 128];
        write_at(&mut bytes, 0, &self.net_key.0);
        write_at(&mut bytes, 32, &self.shared_a.0.0);
        write_at(&mut bytes, 64, &self.shared_b.0.0);
        write_at(&mut bytes, 96, &self.shared_c.0.0);
        bytes
    }

    /// Hashes the fields, then hashes the digest. The bytes that were hashed
    /// and the first digest are cleared before the function returns.
    pub fn into_hash(self) -> (hash: SharedKeyHash)
        ensures
            hash@ == double_hash(self.net_key@, self.shared_a@, self.shared_b@, self.shared_c@),
    {
        let mut bytes = self.to_bytes();
        let mut h1 = sha256(bytes.as_slice());
        memzero(&mut bytes);
        let hash = SharedKeyHash(sha256(h1.as_slice()));
        memzero(&mut h1);
        hash
    }
}

/// What the second hash takes in.
pub struct SharedKeyData {
    pub double_hash: SharedKeyHash,
    pub pk: PublicKey,
}

impl SharedKeyData {
    /// The bytes that are hashed.
    pub open spec fn layout(&self) -> Seq<u8> {
        key_input(self.double_hash@, self.pk@)
    }

    /// Writes the two fields one after the other. The array holds the double
    /// hash: clear it after use.
    pub fn to_bytes(&self) -> (bytes: [u8; 64])
        ensures
            bytes@ == self.layout(),
    {
        let mut bytes = [0u8; 64];
        write_at(&mut bytes, 0, &self.double_hash.0);
        write_at(&mut bytes, 32, &self.pk.0);
        bytes
    }

    /// Hashes the fields and takes the session key from the digest. The bytes
    /// that were hashed and the digest are cleared before the function
    /// returns.
    pub fn into_key(self) -> (key: SessionKey)
        ensures
            key@ == sha256_digest(key_input(self.double_hash@, self.pk@)),
    {
        let mut bytes = self.to_bytes();
        let mut digest = sha256(bytes.as_slice());
        memzero(&mut bytes);
        let key = SessionKey::from_digest(digest.as_slice()).unwrap();
        memzero(&mut digest);
        key
    }
}

/// The first hash input holds each of its four fields whole: two inputs with
/// the same bytes have the same network key and the same three secrets. So a
/// change of any byte of any field changes the bytes that are hashed.
pub proof fn lemma_hash_data_layout_injective<'a>(
    x: SharedKeyHashData<'a>,
    y: SharedKeyHashData<'a>,
)
    ensures
        x.layout() == y.layout() <==> x == y,
{
    if x.layout() == y.layout() {
        let l = x.layout();
        assert(x.net_key@ == l.subrange(0, 32));
        assert(y.net_key@ == l.subrange(0, 32));
        assert(x.shared_a@ == l.subrange(32, 64));
        assert(y.shared_a@ == l.subrange(32, 64));
        assert(x.shared_b@ == l.subrange(64, 96));
        assert(y.shared_b@ == l.subrange(64, 96));
        assert(x.shared_c@ == l.subrange(96, 128));
        assert(y.shared_c@ == l.subrange(96, 128));
        assert(x.net_key.0 =~= y.net_key.0);
        assert(x.shared_a.0.0 =~= y.shared_a.0.0);
        assert(x.shared_b.0.0 =~= y.shared_b.0.0);
        assert(x.shared_c.0.0 =~= y.shared_c.0.0);
    }
}

/// The second hash input holds both of its fields whole: two inputs with the
/// same bytes have the same double hash and the same public key.
pub proof fn lemma_key_data_layout_injective(x: SharedKeyData, y: SharedKeyData)
    ensures
        x.layout() == y.layout() <==> x == y,
{
    if x.layout() == y.layout() {
        let l = x.layout();
        assert(x.double_hash@ == l.subrange(0, 32));
        assert(y.double_hash@ == l.subrange(0, 32));
        assert(x.pk@ == l.subrange(32, 64));
        assert(y.pk@ == l.subrange(32, 64));
        assert(x.double_hash.0 =~= y.double_hash.0);
        assert(x.pk.0 =~= y.pk.0);
    }
}

/// Two second hash inputs differ as soon as the double hashes or the public
/// keys differ, whatever the length of the double hashes, as long as the two
/// public keys are of one length.
pub proof fn lemma_key_input_differs(dh1: Seq<u8>, pk1: Seq<u8>, dh2: Seq<u8>, pk2: Seq<u8>)
    requires
        pk1.len() == pk2.len(),
        dh1 != dh2 || pk1 != pk2,
    ensures
        key_input(dh1, pk1) != key_input(dh2, pk2),
{
    let k1 = key_input(dh1, pk1);
    let k2 = key_input(dh2, pk2);
    if k1 == k2 {
        assert(dh1.len() == dh2.len()) by {
            assert(k1.len() == dh1.len() + pk1.len());
            assert(k2.len() == dh2.len() + pk2.len());
        }
        assert(dh1 =~= k1.subrange(0, dh1.len() as int));
        assert(dh2 =~= k2.subrange(0, dh2.len() as int));
        assert(pk1 =~= k1.subrange(dh1.len() as int, k1.len() as int));
        assert(pk2 =~= k2.subrange(dh2.len() as int, k2.len() as int));
    }
}

} // verus!
