//! The keys of one end of an encrypted connection and the key agreement.

use vstd::prelude::*;
use crate::error::Error;
use crate::protocol::encrypted::cipher::CipherBox;
use crate::protocol::encrypted::crypto::{
    random_bytes, sha256, sha256_digest, x25519_diffie_hellman, x25519_public, x25519_public_key,
    x25519_shared,
};

verus! {

/// The keys of one end of an encrypted connection: its own secret key, the
/// public keys of the peers it trusts, and whether it accepts peers it does
/// not know.
#[derive(Clone)]
pub struct Keys {
    /// The secret X25519 key.
    pub secret: [u8; 32],
    /// The public keys of the trusted peers.
    pub known_peers: Vec<[u8; 32]>,
    /// Whether peers that are not in `known_peers` are accepted.
    pub allow_unknown: bool,
}

impl Keys {
    /// Whether the peer with public key `peer` is accepted.
    pub open spec fn spec_accepts(&self, peer: Seq<u8>) -> bool {
        self.allow_unknown || exists|i: int|
            0 <= i < self.known_peers@.len() && #[trigger] self.known_peers@[i]@ == peer
    }

    /// The public key that belongs to the secret key.
    pub fn public_key(&self) -> (r: [u8; 32])
        ensures
            r@ == x25519_public(self.secret@),
    {
        x25519_public_key(&self.secret)
    }

    /// Whether the peer with public key `peer` is accepted: it is when unknown
    /// peers are allowed or when it is one of the known peers.
    pub fn accepts(&self, peer: &[u8; 32]) -> (r: bool)
        ensures
            r == self.spec_accepts(peer@),
            self.allow_unknown ==> r,
            !self.allow_unknown ==> (r <==> exists|i: int|
                0 <= i < self.known_peers@.len() && #[trigger] self.known_peers@[i]@ == peer@),
    {
        if self.allow_unknown {
            return true;
        }
        let mut i: usize = 0;
        while i < self.known_peers.len()
            invariant
                i <= self.known_peers@.len(),
                !self.allow_unknown,
                forall|j: int| 0 <= j < i ==> #[trigger] self.known_peers@[j]@ != peer@,
            decreases self.known_peers@.len() - i,
        {
            if same_key(&self.known_peers[i], peer) {
                return true;
            }
            i = i + 1;
        }
        false
    }

    /// The cipher for the first stage of a connection with the peer whose
    /// public key is `peer`: keyed with the X25519 shared secret, counts at
    /// zero. A peer that is not accepted is refused with `UnknownPeer`. When
    /// both ends do this with each other's public keys, they hold the same key.
    pub fn handshake_cipher(&self, peer: &[u8; 32]) -> (r: Result<CipherBox, Error>)
        ensures
            self.allow_unknown ==> r is Ok,
            (exists|i: int|
                0 <= i < self.known_peers@.len() && #[trigger] self.known_peers@[i]@ == peer@)
                ==> r is Ok,
            !self.allow_unknown && (forall|i: int|
                0 <= i < self.known_peers@.len() ==> #[trigger] self.known_peers@[i]@ != peer@)
                ==> (r matches Err(Error::UnknownPeer(p)) && p@ == peer@),
            !self.spec_accepts(peer@) ==> (r matches Err(Error::UnknownPeer(p)) && p@ == peer@),
            self.spec_accepts(peer@) ==> (r matches Ok(c) && c.wf() && c.spec_key()
                == x25519_shared(self.secret@, peer@) && c.spec_en_count() == 0
                && c.spec_de_count() == 0),
            forall|other: Seq<u8>|
                other.len() == 32 && peer@ == x25519_public(other) ==> (r matches Ok(c)
                    ==> c.spec_key() == x25519_shared(other, x25519_public(self.secret@))),
    {
        if !self.accepts(peer) {
            return Err(Error::UnknownPeer(*peer));
        }
        let shared = x25519_diffie_hellman(&self.secret, peer);
        Ok(CipherBox::new(&shared))
    }
}

/// Keys that allow unknown peers accept every peer, whatever peers they
/// know; keys that do not accept exactly the peers they know.
pub proof fn lemma_peer_acceptance(keys: Keys, peer: Seq<u8>)
    ensures
        keys.allow_unknown ==> keys.spec_accepts(peer),
        (exists|i: int| 0 <= i < keys.known_peers@.len() && #[trigger] keys.known_peers@[i]@ == peer)
            ==> keys.spec_accepts(peer),
        !keys.allow_unknown && (forall|i: int|
            0 <= i < keys.known_peers@.len() ==> #[trigger] keys.known_peers@[i]@ != peer)
            ==> !keys.spec_accepts(peer),
{
}

/// Whether two keys are equal.
fn same_key(a: &[u8; 32], b: &[u8; 32]) -> (r: bool)
    ensures
        r == (a@ == b@),
{
    let mut i: usize = 0;
    while i < 32
        invariant
            i <= 32,
            a@.len() == 32,
            b@.len() == 32,
            forall|j: int| 0 <= j < i ==> a@[j] == b@[j],
        decreases 32 - i,
    {
        if a[i] != b[i] {
            return false;
        }
        i = i + 1;
    }
    assert(a@ == b@);
    true
}

/// A new key for the second stage of a connection: the SHA-256 digest of 32
/// random bytes.
pub fn generate_session_key() -> (r: Vec<u8>)
    ensures
        r@.len() == 32,
        exists|seed: Seq<u8>| seed.len() == 32 && r@ == sha256(seed),
{
    let seed = random_bytes();
    sha256_digest(&seed)
}

/// The options of an encrypted listener or stream: the options of the
/// underlying transport and the keys.
#[derive(Clone)]
pub struct EncryptionOptions<T> {
    /// The options of the underlying transport.
    pub inner_options: T,
    /// The keys.
    pub keys: Keys,
}

impl<T: Default> Default for EncryptionOptions<T> {
    /// The default options of the transport, a new random secret key, no
    /// known peers, and every peer accepted.
    fn default() -> (r: Self)
        ensures
            r.keys.known_peers@.len() == 0,
            r.keys.allow_unknown,
    {
        EncryptionOptions {
            inner_options: T::default(),
            keys: Keys { secret: random_bytes(), known_peers: Vec::new(), allow_unknown: true },
        }
    }
}

} // verus!
