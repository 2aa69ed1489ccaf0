//! Encrypted packages on the wire: a four-byte big-endian length, then the
//! sealed bytes.

use vstd::prelude::*;
use crate::error::{DecodeFailure, Error};
use crate::wire::{be32, from_be32, lemma_be32_roundtrip, push_bytes, push_u32_be, read_u32_be, copy_range};

verus! {

/// One encrypted package.
pub struct EncryptedPackage {
    bytes: Vec<u8>,
}

impl View for EncryptedPackage {
    type V = Seq<u8>;

    closed spec fn view(&self) -> Seq<u8> {
        self.bytes@
    }
}

/// The bytes a package holding `b` is written as; the length is truncated to
/// 32 bits.
pub open spec fn package_bytes(b: Seq<u8>) -> Seq<u8> {
    be32(b.len() as u32) + b
}

/// The package held by the front of `s`.
pub open spec fn decode_package(s: Seq<u8>) -> Result<Seq<u8>, DecodeFailure> {
    if s.len() < 4 {
        Err(DecodeFailure::Eof)
    } else {
        let l = from_be32(s.take(4)) as int;
        if s.len() - 4 < l {
            Err(DecodeFailure::Eof)
        } else {
            Ok(s.subrange(4, 4 + l))
        }
    }
}

impl EncryptedPackage {
    /// A package holding `bytes`.
    pub fn new(bytes: Vec<u8>) -> (p: EncryptedPackage)
        ensures
            p@ == bytes@,
    {
        EncryptedPackage { bytes }
    }

    /// The bytes the package is written as.
    pub fn into_bytes(self) -> (b: Vec<u8>)
        ensures
            b@ == package_bytes(self@),
    {
        let mut buf: Vec<u8> = Vec::new();
        push_u32_be(&mut buf, self.bytes.len() as u32);
        push_bytes(&mut buf, self.bytes.as_slice());
        buf
    }

    /// Reads a package from the front of `s`.
    pub fn from_bytes(s: &[u8]) -> (r: Result<EncryptedPackage, Error>)
        ensures
            match decode_package(s@) {
                Ok(b) => r matches Ok(p) && p@ == b,
                Err(f) => r matches Err(e) && e.reports(f),
            },
    {
        let len = match read_u32_be(s, 0) {
            Some(l) => l,
            None => {
                return Err(Error::from_failure(DecodeFailure::Eof));
            },
        };
        assert(s@.take(4) == s@.subrange(0, 4));
        if ((s.len() - 4) as u64) < (len as u64) {
            return Err(Error::from_failure(DecodeFailure::Eof));
        }
        Ok(EncryptedPackage { bytes: copy_range(s, 4, len as usize) })
    }

    /// The bytes the package holds.
    pub fn into_inner(self) -> (b: Vec<u8>)
        ensures
            b@ == self@,
    {
        self.bytes
    }
}

/// A package reads back as the bytes it holds, whatever follows it, when it
/// holds fewer than 2^32 bytes.
pub proof fn lemma_package_roundtrip(b: Seq<u8>, extra: Seq<u8>)
    requires
        b.len() < 0x1_0000_0000,
    ensures
        decode_package(package_bytes(b) + extra) == Ok::<Seq<u8>, DecodeFailure>(b),
{
    let s = package_bytes(b) + extra;
    lemma_be32_roundtrip(b.len() as u32);
    assert(s.take(4) == be32(b.len() as u32));
    assert(s.subrange(4, 4 + b.len() as int) == b);
}

} // verus!
