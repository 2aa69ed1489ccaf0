//! Payloads: the bytes an event carries, and the two payload types the library
//! provides itself.

use vstd::prelude::*;
use crate::error::{DecodeFailure, Error};
use crate::wire::{be64, from_be64, push_u64_be, push_bytes, read_u64_be, copy_range, lemma_be64_roundtrip};

verus! {

/// A value that can be turned into the bytes of an event payload.
///
/// `payload_bytes` says which bytes a value is sent as, or `None` when it
/// cannot be encoded.
pub trait EventSendPayload: View + Sized {
    /// The payload bytes for a value with view `v`, or `None` when encoding fails.
    spec fn payload_bytes(v: Self::V) -> Option<Seq<u8>>;

    /// Encodes the value into payload bytes.
    fn to_payload_bytes(self) -> (r: Result<Vec<u8>, Error>)
        ensures
            match Self::payload_bytes(self@) {
                Some(b) => r matches Ok(out) && out@ == b,
                None => r is Err,
            },
    ;
}

/// A value that can be read from the bytes of an event payload.
///
/// `parse_payload` says which value a payload holds, or `None` when the bytes
/// are not a valid payload of this type.
pub trait EventReceivePayload: View + Sized {
    /// The value held by the payload `b`, or `None` when decoding fails.
    spec fn parse_payload(b: Seq<u8>) -> Option<Self::V>;

    /// Decodes a value from payload bytes.
    fn from_payload_bytes(bytes: &[u8]) -> (r: Result<Self, Error>)
        ensures
            match Self::parse_payload(bytes@) {
                Some(v) => r matches Ok(out) && out@ == v,
                None => r is Err,
            },
    ;
}

/// A payload of raw bytes, sent as they are without any encoding.
#[derive(Clone, Debug)]
pub struct BytePayload {
    bytes: Vec<u8>,
}

impl View for BytePayload {
    type V = Seq<u8>;

    closed spec fn view(&self) -> Seq<u8> {
        self.bytes@
    }
}

impl BytePayload {
    /// A payload holding `bytes`.
    pub fn new(bytes: Vec<u8>) -> (p: BytePayload)
        ensures
            p@ == bytes@,
    {
        BytePayload { bytes }
    }

    /// The bytes of the payload.
    pub fn into_inner(self) -> (b: Vec<u8>)
        ensures
            b@ == self@,
    {
        self.bytes
    }
}

impl EventSendPayload for BytePayload {
    open spec fn payload_bytes(v: Seq<u8>) -> Option<Seq<u8>> {
        Some(v)
    }

    fn to_payload_bytes(self) -> (r: Result<Vec<u8>, Error>) {
        Ok(self.bytes)
    }
}

impl EventReceivePayload for BytePayload {
    open spec fn parse_payload(b: Seq<u8>) -> Option<Seq<u8>> {
        Some(b)
    }

    fn from_payload_bytes(bytes: &[u8]) -> (r: Result<BytePayload, Error>) {
        let copy = copy_range(bytes, 0, bytes.len());
        assert(copy@ == bytes@);
        Ok(BytePayload::new(copy))
    }
}

/// Two payloads sent together, each encoded independently of the other.
///
/// On the wire: the length of the first payload (eight bytes, big-endian), the
/// first payload, the length of the second payload, the second payload.
pub struct TandemPayload<P1, P2> {
    load1: P1,
    load2: P2,
}

impl<P1: View, P2: View> View for TandemPayload<P1, P2> {
    type V = (P1::V, P2::V);

    closed spec fn view(&self) -> (P1::V, P2::V) {
        (self.load1@, self.load2@)
    }
}

impl<P1: View, P2: View> TandemPayload<P1, P2> {
    /// The first payload.
    pub closed spec fn first(&self) -> P1 {
        self.load1
    }

    /// The second payload.
    pub closed spec fn second(&self) -> P2 {
        self.load2
    }

    /// A payload made of `load1` followed by `load2`.
    pub fn new(load1: P1, load2: P2) -> (p: Self)
        ensures
            p.first() == load1,
            p.second() == load2,
            p@ == (load1@, load2@),
    {
        TandemPayload { load1, load2 }
    }

    /// The two payloads, unchanged and in their order.
    pub fn into_inner(self) -> (r: (P1, P2))
        ensures
            r == (self.first(), self.second()),
            (r.0@, r.1@) == self@,
    {
        (self.load1, self.load2)
    }
}

/// The bytes of a tandem payload whose parts encode as `a` and `b`.
pub open spec fn tandem_bytes(a: Seq<u8>, b: Seq<u8>) -> Seq<u8> {
    be64(a.len() as u64) + a + be64(b.len() as u64) + b
}

/// Splits the bytes of a tandem payload into the bytes of its two parts, or
/// fails when the bytes end early.
pub open spec fn tandem_split(s: Seq<u8>) -> Result<(Seq<u8>, Seq<u8>), DecodeFailure> {
    if s.len() < 8 {
        Err(DecodeFailure::Eof)
    } else {
        let l1 = from_be64(s.take(8)) as int;
        if s.len() - 8 < l1 {
            Err(DecodeFailure::Eof)
        } else {
            let a = s.subrange(8, 8 + l1);
            let r = s.skip(8 + l1);
            if r.len() < 8 {
                Err(DecodeFailure::Eof)
            } else {
                let l2 = from_be64(r.take(8)) as int;
                if r.len() - 8 < l2 {
                    Err(DecodeFailure::Eof)
                } else {
                    Ok((a, r.subrange(8, 8 + l2)))
                }
            }
        }
    }
}

impl<P1: EventSendPayload, P2: EventSendPayload> EventSendPayload for TandemPayload<P1, P2> {
    open spec fn payload_bytes(v: (P1::V, P2::V)) -> Option<Seq<u8>> {
        match (P1::payload_bytes(v.0), P2::payload_bytes(v.1)) {
            (Some(a), Some(b)) => Some(tandem_bytes(a, b)),
            _ => None,
        }
    }

    fn to_payload_bytes(self) -> (r: Result<Vec<u8>, Error>) {
        let p1 = self.load1.to_payload_bytes();
        let p1_bytes = match p1 {
            Ok(b) => b,
            Err(e) => {
                return Err(e);
            },
        };
        let p2 = self.load2.to_payload_bytes();
        let p2_bytes = match p2 {
            Ok(b) => b,
            Err(e) => {
                return Err(e);
            },
        };
        let mut bytes: Vec<u8> = Vec::new();
        push_u64_be(&mut bytes, p1_bytes.len() as u64);
        push_bytes(&mut bytes, p1_bytes.as_slice());
        push_u64_be(&mut bytes, p2_bytes.len() as u64);
        push_bytes(&mut bytes, p2_bytes.as_slice());
        Ok(bytes)
    }
}

impl<P1: EventReceivePayload, P2: EventReceivePayload> EventReceivePayload for TandemPayload<
    P1,
    P2,
> {
    open spec fn parse_payload(b: Seq<u8>) -> Option<(P1::V, P2::V)> {
        match tandem_split(b) {
            Ok((a, c)) => match (P1::parse_payload(a), P2::parse_payload(c)) {
                (Some(v1), Some(v2)) => Some((v1, v2)),
                _ => None,
            },
            Err(_) => None,
        }
    }

    fn from_payload_bytes(bytes: &[u8]) -> (r: Result<TandemPayload<P1, P2>, Error>)
        ensures
            tandem_split(bytes@) matches Err(f) ==> (r matches Err(e) && e.reports(f)),
    {
        let (a, c) = match split_tandem(bytes) {
            Ok(parts) => parts,
            Err(e) => {
                return Err(e);
            },
        };
        let load1 = match P1::from_payload_bytes(a.as_slice()) {
            Ok(v) => v,
            Err(e) => {
                return Err(e);
            },
        };
        let load2 = match P2::from_payload_bytes(c.as_slice()) {
            Ok(v) => v,
            Err(e) => {
                return Err(e);
            },
        };
        Ok(TandemPayload { load1, load2 })
    }
}

/// Splits the bytes of a tandem payload into the bytes of its two parts.
pub fn split_tandem(bytes: &[u8]) -> (r: Result<(Vec<u8>, Vec<u8>), Error>)
    ensures
        match tandem_split(bytes@) {
            Ok((a, c)) => r matches Ok((x, y)) && x@ == a && y@ == c,
            Err(f) => r matches Err(e) && e.reports(f),
        },
{
    let n = bytes.len();
    let l1 = match read_u64_be(bytes, 0) {
        Some(v) => v,
        None => {
            return Err(Error::from_failure(DecodeFailure::Eof));
        },
    };
    proof {
        assert(bytes@.subrange(0, 8) == bytes@.take(8));
    }
    if ((n - 8) as u64) < l1 {
        return Err(Error::from_failure(DecodeFailure::Eof));
    }
    let l1u = l1 as usize;
    let a = copy_range(bytes, 8, l1u);
    let p = 8 + l1u;
    let l2 = match read_u64_be(bytes, p) {
        Some(v) => v,
        None => {
            return Err(Error::from_failure(DecodeFailure::Eof));
        },
    };
    proof {
        let r = bytes@.skip(8 + l1);
        assert(r.take(8) == bytes@.subrange(p as int, p + 8));
    }
    if ((n - p - 8) as u64) < l2 {
        return Err(Error::from_failure(DecodeFailure::Eof));
    }
    let c = copy_range(bytes, p + 8, l2 as usize);
    proof {
        let r = bytes@.skip(8 + l1);
        assert(r.subrange(8, 8 + l2) == bytes@.subrange(p + 8, p + 8 + l2));
    }
    Ok((a, c))
}

/// Sending two payloads together and reading them back gives both payloads
/// back, provided each payload type reads back what it sends.
pub proof fn lemma_tandem_roundtrip<P1, P2>(v1: P1::V, v2: P2::V)
    where
        P1: EventSendPayload + EventReceivePayload,
        P2: EventSendPayload + EventReceivePayload,
    requires
        P1::payload_bytes(v1) is Some,
        P2::payload_bytes(v2) is Some,
        P1::parse_payload(P1::payload_bytes(v1).unwrap()) == Some(v1),
        P2::parse_payload(P2::payload_bytes(v2).unwrap()) == Some(v2),
        P1::payload_bytes(v1).unwrap().len() <= u64::MAX,
        P2::payload_bytes(v2).unwrap().len() <= u64::MAX,
    ensures
        <TandemPayload<P1, P2> as EventReceivePayload>::parse_payload(
            <TandemPayload<P1, P2> as EventSendPayload>::payload_bytes((v1, v2)).unwrap(),
        ) == Some((v1, v2)),
{
    let a = P1::payload_bytes(v1).unwrap();
    let b = P2::payload_bytes(v2).unwrap();
    let s = tandem_bytes(a, b);
    lemma_be64_roundtrip(a.len() as u64);
    lemma_be64_roundtrip(b.len() as u64);
    assert(s.take(8) == be64(a.len() as u64));
    assert(s.subrange(8, 8 + a.len() as int) == a);
    let r = s.skip(8 + a.len() as int);
    assert(r == be64(b.len() as u64) + b);
    assert(r.take(8) == be64(b.len() as u64));
    assert(r.subrange(8, 8 + b.len() as int) == b);
}

} // verus!
