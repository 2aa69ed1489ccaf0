//! The cipher state of one direction pair of a connection.

use vstd::prelude::*;
use crate::error::{Error, IoErrorKind};
use crate::protocol::encrypted::crypto::{aead_len_ok, aead_open, aead_seal, chacha_decrypt, chacha_encrypt};
use crate::wire::{be64, lemma_be64_injective};

verus! {

/// The nonce for the package with number `n`: the eight big-endian bytes of
/// `n` followed by the first four of them again.
pub open spec fn spec_nonce(n: u64) -> Seq<u8> {
    be64(n) + be64(n).take(4)
}

/// The nonce for the package with number `number`.
pub fn nonce_from_number(number: u64) -> (r: [u8; 12])
    ensures
        r@ == spec_nonce(number),
{
    let b0 = (number >> 56u64) as u8;
    let b1 = (number >> 48u64) as u8;
    let b2 = (number >> 40u64) as u8;
    let b3 = (number >> 32u64) as u8;
    let b4 = (number >> 24u64) as u8;
    let b5 = (number >> 16u64) as u8;
    let b6 = (number >> 8u64) as u8;
    let b7 = number as u8;
    let r = [b0, b1, b2, b3, b4, b5, b6, b7, b0, b1, b2, b3];
    assert(r@ == spec_nonce(number));
    r
}

/// Different package numbers give different nonces.
pub proof fn lemma_nonce_injective(n1: u64, n2: u64)
    requires
        n1 != n2,
    ensures
        spec_nonce(n1) != spec_nonce(n2),
{
    if spec_nonce(n1) == spec_nonce(n2) {
        assert(spec_nonce(n1).take(8) == be64(n1));
        assert(spec_nonce(n2).take(8) == be64(n2));
        lemma_be64_injective(n1, n2);
    }
}

/// A key and the numbers of the packages encrypted and decrypted with it so
/// far.
pub struct CipherBox {
    key: Vec<u8>,
    en_count: u64,
    de_count: u64,
}

impl CipherBox {
    /// The key.
    pub closed spec fn spec_key(&self) -> Seq<u8> {
        self.key@
    }

    /// The number of the next package to encrypt.
    pub closed spec fn spec_en_count(&self) -> u64 {
        self.en_count
    }

    /// The number of the next package to decrypt.
    pub closed spec fn spec_de_count(&self) -> u64 {
        self.de_count
    }

    /// The key is 32 bytes long.
    pub closed spec fn wf(&self) -> bool {
        self.key@.len() == 32
    }

    /// A cipher with the 32-byte `key` and both counts at zero.
    pub fn new(key: &[u8]) -> (c: CipherBox)
        requires
            key@.len() == 32,
        ensures
            c.wf(),
            c.spec_key() == key@,
            c.spec_en_count() == 0,
            c.spec_de_count() == 0,
    {
        let mut k: Vec<u8> = Vec::new();
        crate::wire::push_bytes(&mut k, key);
        CipherBox { key: k, en_count: 0, de_count: 0 }
    }

    /// Encrypts `data` as the next outgoing package; the outgoing count grows
    /// by one (wrapping) whether or not encryption succeeds. Fails with
    /// `InvalidData` only when the message is too long for the cipher.
    pub fn encrypt(&mut self, data: &[u8]) -> (r: Result<Vec<u8>, Error>)
        requires
            old(self).wf(),
        ensures
            final(self).wf(),
            final(self).spec_key() == old(self).spec_key(),
            final(self).spec_de_count() == old(self).spec_de_count(),
            final(self).spec_en_count() == old(self).spec_en_count().wrapping_add(1),
            aead_len_ok(data@.len()) ==> (r matches Ok(c) && c@ == aead_seal(
                old(self).spec_key(),
                spec_nonce(old(self).spec_en_count()),
                data@,
            )),
            !aead_len_ok(data@.len()) ==> (r matches Err(Error::IoError(IoErrorKind::InvalidData))),
    {
        let nonce = nonce_from_number(self.en_count);
        self.en_count = self.en_count.wrapping_add(1);
        match chacha_encrypt(self.key.as_slice(), &nonce, data) {
            Some(c) => Ok(c),
            None => Err(Error::IoError(IoErrorKind::InvalidData)),
        }
    }

    /// Decrypts `data` as the next incoming package; the incoming count grows
    /// by one (wrapping) whether or not decryption succeeds. A package that
    /// the peer encrypted under the same key with the same package number
    /// decrypts to what the peer encrypted; a package that does not
    /// authenticate fails with `InvalidData`.
    pub fn decrypt(&mut self, data: &[u8]) -> (r: Result<Vec<u8>, Error>)
        requires
            old(self).wf(),
        ensures
            final(self).wf(),
            final(self).spec_key() == old(self).spec_key(),
            final(self).spec_en_count() == old(self).spec_en_count(),
            final(self).spec_de_count() == old(self).spec_de_count().wrapping_add(1),
            match aead_open(old(self).spec_key(), spec_nonce(old(self).spec_de_count()), data@) {
                Some(p) => r matches Ok(x) && x@ == p,
                None => r matches Err(Error::IoError(IoErrorKind::InvalidData)),
            },
            forall|p: Seq<u8>|
                data@ == aead_seal(old(self).spec_key(), spec_nonce(old(self).spec_de_count()), p)
                    && aead_len_ok(p.len()) ==> (r matches Ok(x) && x@ == p),
    {
        let nonce = nonce_from_number(self.de_count);
        self.de_count = self.de_count.wrapping_add(1);
        match chacha_decrypt(self.key.as_slice(), &nonce, data) {
            Some(p) => Ok(p),
            None => Err(Error::IoError(IoErrorKind::InvalidData)),
        }
    }

    /// Replaces the key with the 32-byte `key` and sets both counts to zero.
    /// Both ends of a connection do this at the same point to stay in step.
    pub fn update_key(&mut self, key: &[u8])
        requires
            key@.len() == 32,
        ensures
            final(self).wf(),
            final(self).spec_key() == key@,
            final(self).spec_en_count() == 0,
            final(self).spec_de_count() == 0,
    {
        let mut k: Vec<u8> = Vec::new();
        crate::wire::push_bytes(&mut k, key);
        self.key = k;
        self.reset_counters();
    }

    /// Sets both counts to zero.
    pub fn reset_counters(&mut self)
        ensures
            final(self).spec_key() == old(self).spec_key(),
            final(self).spec_en_count() == 0,
            final(self).spec_de_count() == 0,
    {
        self.de_count = 0;
        self.en_count = 0;
    }

    /// A copy of the cipher with the same key and counts.
    pub fn duplicate(&self) -> (c: CipherBox)
        ensures
            c.spec_key() == self.spec_key(),
            c.spec_en_count() == self.spec_en_count(),
            c.spec_de_count() == self.spec_de_count(),
            self.wf() ==> c.wf(),
    {
        let mut k: Vec<u8> = Vec::new();
        crate::wire::push_bytes(&mut k, self.key.as_slice());
        CipherBox { key: k, en_count: self.en_count, de_count: self.de_count }
    }
}

} // verus!
