//! Events and their binary representation.
//!
//! An event is sent as: the total length of header and data (eight bytes,
//! big-endian), the length of the header (two bytes, big-endian), the header,
//! the data.
//!
//! The header holds: the format version (three bytes), the event id (eight
//! bytes), the event type (one byte), a reference-id marker (`0xFF` when a
//! reference id follows in eight bytes, `0x00` when none does), the namespace
//! (two length bytes and UTF-8, a length of zero meaning no namespace), and
//! the name (two length bytes and UTF-8). Bytes after the name are ignored, so
//! that fields can be appended to the header in later versions.

use vstd::prelude::*;
use vstd::utf8::*;
use crate::error::{DecodeFailure, Error};
use crate::events::payload::EventReceivePayload;
use crate::text::{string_bytes, string_from_utf8};
use crate::wire::{
    be16, be64, from_be16, from_be64, push_u16_be, push_u64_be, push_bytes, read_u16_be,
    read_u64_be, copy_range, lemma_be16_roundtrip, lemma_be64_roundtrip,
};

verus! {

/// The format version written into every header. Headers are accepted when
/// their first version number matches.
pub const FORMAT_VERSION: [u8; 3] = [0, 9, 0];

/// The format version as bytes.
pub open spec fn format_version() -> Seq<u8> {
    seq![0u8, 9u8, 0u8]
}

/// The role of an event in a conversation.
#[derive(Clone, Copy, Debug, PartialEq, Eq, Structural, PartialOrd, Ord)]
pub enum EventType {
    /// An event that starts a conversation (number 0).
    Initiator,
    /// A reply to an earlier event (number 1).
    Response,
    /// The last reply to an earlier event (number 2).
    End,
    /// A reply that reports a failure (number 3).
    Error,
}

/// The number an event type is written as.
pub open spec fn event_type_number(t: EventType) -> u8 {
    match t {
        EventType::Initiator => 0,
        EventType::Response => 1,
        EventType::End => 2,
        EventType::Error => 3,
    }
}

/// The event type written as `b`, if any.
pub open spec fn event_type_of(b: u8) -> Option<EventType> {
    if b == 0 {
        Some(EventType::Initiator)
    } else if b == 1 {
        Some(EventType::Response)
    } else if b == 2 {
        Some(EventType::End)
    } else if b == 3 {
        Some(EventType::Error)
    } else {
        None
    }
}

impl EventType {
    /// The number this event type is written as.
    pub fn to_u8(self) -> (b: u8)
        ensures
            b == event_type_number(self),
    {
        match self {
            EventType::Initiator => 0,
            EventType::Response => 1,
            EventType::End => 2,
            EventType::Error => 3,
        }
    }

    /// The event type written as `b`, or `None` for an unknown number.
    pub fn from_u8(b: u8) -> (t: Option<EventType>)
        ensures
            t == event_type_of(b),
    {
        match b {
            0 => Some(EventType::Initiator),
            1 => Some(EventType::Response),
            2 => Some(EventType::End),
            3 => Some(EventType::Error),
            _ => None,
        }
    }
}

/// The abstract content of an event header.
#[verifier::ext_equal]
pub struct HeaderView {
    /// The event id.
    pub id: u64,
    /// The event type.
    pub event_type: EventType,
    /// The id of the event this one replies to.
    pub ref_id: Option<u64>,
    /// The namespace, if any.
    pub namespace: Option<Seq<char>>,
    /// The name.
    pub name: Seq<char>,
}

/// The abstract content of an event.
#[verifier::ext_equal]
pub struct EventView {
    /// The header.
    pub header: HeaderView,
    /// The payload bytes.
    pub data: Seq<u8>,
}

/// A string field: its UTF-8 length (two bytes, truncated to 16 bits) and its
/// UTF-8 bytes.
pub open spec fn string_field(s: Seq<char>) -> Seq<u8> {
    let b = encode_utf8(s);
    be16(b.len() as u16) + b
}

/// The reference-id field.
pub open spec fn ref_field(r: Option<u64>) -> Seq<u8> {
    match r {
        Some(x) => seq![0xFFu8] + be64(x),
        None => seq![0u8],
    }
}

/// The namespace field; no namespace is written as the length zero.
pub open spec fn namespace_field(n: Option<Seq<char>>) -> Seq<u8> {
    match n {
        Some(s) => string_field(s),
        None => be16(0),
    }
}

/// The bytes a header is written as.
pub open spec fn header_bytes(h: HeaderView) -> Seq<u8> {
    format_version() + be64(h.id) + seq![event_type_number(h.event_type)] + ref_field(h.ref_id)
        + namespace_field(h.namespace) + string_field(h.name)
}

/// The bytes an event is written as.
pub open spec fn event_bytes(e: EventView) -> Seq<u8> {
    let hb = header_bytes(e.header);
    let hl = hb.len() as u16;
    be64((hl as int + e.data.len()) as u64) + be16(hl) + hb + e.data
}

/// Reads a UTF-8 string of `len` bytes from the front of `s`; gives the string
/// and the bytes after it.
pub open spec fn take_string(s: Seq<u8>, len: int) -> Result<(Seq<char>, Seq<u8>), DecodeFailure> {
    if s.len() < len {
        Err(DecodeFailure::Eof)
    } else if !valid_utf8(s.take(len)) {
        Err(DecodeFailure::Corrupted)
    } else {
        Ok((decode_utf8(s.take(len)), s.skip(len)))
    }
}

/// Reads the reference-id field from the front of `s`.
pub open spec fn take_ref(s: Seq<u8>) -> Result<(Option<u64>, Seq<u8>), DecodeFailure> {
    if s.len() < 1 {
        Err(DecodeFailure::Eof)
    } else if s[0] == 0 {
        Ok((None, s.skip(1)))
    } else if s[0] == 0xFF {
        if s.len() < 9 {
            Err(DecodeFailure::Eof)
        } else {
            Ok((Some(from_be64(s.subrange(1, 9))), s.skip(9)))
        }
    } else {
        Err(DecodeFailure::Corrupted)
    }
}

/// Reads the namespace field from the front of `s`.
pub open spec fn take_namespace(s: Seq<u8>) -> Result<(Option<Seq<char>>, Seq<u8>), DecodeFailure> {
    if s.len() < 2 {
        Err(DecodeFailure::Eof)
    } else {
        let l = from_be16(s.take(2));
        if l > 0 {
            match take_string(s.skip(2), l as int) {
                Ok((n, r)) => Ok((Some(n), r)),
                Err(f) => Err(f),
            }
        } else {
            Ok((None, s.skip(2)))
        }
    }
}

/// Reads the name field from the front of `s`.
pub open spec fn take_name(s: Seq<u8>) -> Result<(Seq<char>, Seq<u8>), DecodeFailure> {
    if s.len() < 2 {
        Err(DecodeFailure::Eof)
    } else {
        take_string(s.skip(2), from_be16(s.take(2)) as int)
    }
}

/// The header held by the front of `s`, read field by field; bytes after the
/// name are ignored.
pub open spec fn decode_header(s: Seq<u8>) -> Result<HeaderView, DecodeFailure> {
    if s.len() < 3 {
        Err(DecodeFailure::Eof)
    } else if s[0] != 0 {
        Err(DecodeFailure::Version(s[0], s[1], s[2]))
    } else if s.len() < 11 {
        Err(DecodeFailure::Eof)
    } else if s.len() < 12 {
        Err(DecodeFailure::Eof)
    } else {
        match event_type_of(s[11]) {
            None => Err(DecodeFailure::Corrupted),
            Some(t) => match take_ref(s.skip(12)) {
                Err(f) => Err(f),
                Ok((r, s1)) => match take_namespace(s1) {
                    Err(f) => Err(f),
                    Ok((n, s2)) => match take_name(s2) {
                        Err(f) => Err(f),
                        Ok((name, _)) => Ok(
                            HeaderView {
                                id: from_be64(s.subrange(3, 11)),
                                event_type: t,
                                ref_id: r,
                                namespace: n,
                                name,
                            },
                        ),
                    },
                },
            },
        }
    }
}

/// Whether the length prefix of the event bytes `s` is consistent: the header
/// is not longer than header and data together.
pub open spec fn frame_consistent(s: Seq<u8>) -> bool {
    s.len() >= 10 ==> from_be16(s.subrange(8, 10)) <= from_be64(s.take(8))
}

/// The event held by the front of `s`.
pub open spec fn decode_event(s: Seq<u8>) -> Result<EventView, DecodeFailure> {
    if s.len() < 8 {
        Err(DecodeFailure::Eof)
    } else if s.len() < 10 {
        Err(DecodeFailure::Eof)
    } else {
        let total = from_be64(s.take(8)) as int;
        let hl = from_be16(s.subrange(8, 10)) as int;
        let r = s.skip(10);
        if r.len() < hl {
            Err(DecodeFailure::Eof)
        } else {
            match decode_header(r.take(hl)) {
                Err(f) => Err(f),
                Ok(h) => {
                    let r2 = r.skip(hl);
                    if r2.len() < total - hl {
                        Err(DecodeFailure::Eof)
                    } else {
                        Ok(EventView { header: h, data: r2.take(total - hl) })
                    }
                },
            }
        }
    }
}

/// The header of an event.
#[derive(Debug)]
pub struct EventHeader {
    id: u64,
    event_type: EventType,
    ref_id: Option<u64>,
    namespace: Option<String>,
    name: String,
}

/// The characters of an optional string.
pub open spec fn opt_view(s: Option<String>) -> Option<Seq<char>> {
    match s {
        Some(x) => Some(x@),
        None => None,
    }
}

impl View for EventHeader {
    type V = HeaderView;

    closed spec fn view(&self) -> HeaderView {
        HeaderView {
            id: self.id,
            event_type: self.event_type,
            ref_id: self.ref_id,
            namespace: opt_view(self.namespace),
            name: self.name@,
        }
    }
}

/// An event: a header and the payload bytes.
#[derive(Debug)]
pub struct Event {
    header: EventHeader,
    data: Vec<u8>,
}

impl View for Event {
    type V = EventView;

    closed spec fn view(&self) -> EventView {
        EventView { header: self.header@, data: self.data@ }
    }
}

/// Appends a string field for `s` to `buf`.
fn push_string_field(buf: &mut Vec<u8>, s: &String)
    ensures
        final(buf)@ == old(buf)@ + string_field(s@),
{
    let b = string_bytes(s);
    push_u16_be(buf, b.len() as u16);
    push_bytes(buf, b.as_slice());
    assert(buf@ == old(buf)@ + string_field(s@));
}

impl EventHeader {
    /// The bytes the header is written as.
    pub fn into_bytes(self) -> (b: Vec<u8>)
        ensures
            b@ == header_bytes(self@),
    {
        let mut buf: Vec<u8> = Vec::new();
        buf.push(FORMAT_VERSION[0]);
        buf.push(FORMAT_VERSION[1]);
        buf.push(FORMAT_VERSION[2]);
        push_u64_be(&mut buf, self.id);
        buf.push(self.event_type.to_u8());
        match self.ref_id {
            Some(r) => {
                buf.push(0xFFu8);
                push_u64_be(&mut buf, r);
            },
            None => {
                buf.push(0u8);
            },
        }
        match &self.namespace {
            Some(n) => {
                push_string_field(&mut buf, n);
            },
            None => {
                push_u16_be(&mut buf, 0);
            },
        }
        push_string_field(&mut buf, &self.name);
        assert(buf@ == header_bytes(self@));
        buf
    }

    /// Reads a UTF-8 string of `len` bytes at `pos`; gives the string and the
    /// position after it.
    pub fn read_string(s: &[u8], pos: usize, len: usize) -> (r: Result<(String, usize), Error>)
        requires
            pos <= s@.len(),
        ensures
            match take_string(s@.skip(pos as int), len as int) {
                Ok((v, rest)) => r matches Ok((x, p)) && x@ == v && p <= s@.len() && s@.skip(
                    p as int,
                ) == rest,
                Err(f) => r matches Err(e) && e.reports(f),
            },
    {
        let ghost t = s@.skip(pos as int);
        if s.len() - pos < len {
            return Err(Error::from_failure(DecodeFailure::Eof));
        }
        let bytes = copy_range(s, pos, len);
        assert(bytes@ == t.take(len as int));
        assert(s@.skip(pos + len) == t.skip(len as int));
        match string_from_utf8(bytes) {
            Some(text) => Ok((text, pos + len)),
            None => Err(Error::from_failure(DecodeFailure::Corrupted)),
        }
    }

    /// Reads the format version at the front of `s` and checks that its first
    /// number is the one of this format.
    pub fn read_version(s: &[u8]) -> (r: Result<Vec<u8>, Error>)
        ensures
            s@.len() < 3 ==> (r matches Err(e) && e.reports(DecodeFailure::Eof)),
            s@.len() >= 3 && s@[0] != FORMAT_VERSION[0] ==> (r matches Err(e) && e.reports(
                DecodeFailure::Version(s@[0], s@[1], s@[2]),
            )),
            s@.len() >= 3 && s@[0] == FORMAT_VERSION[0] ==> (r matches Ok(v) && v@ == s@.take(3)),
    {
        if s.len() < 3 {
            return Err(Error::from_failure(DecodeFailure::Eof));
        }
        if s[0] != FORMAT_VERSION[0] {
            return Err(Error::from_failure(DecodeFailure::Version(s[0], s[1], s[2])));
        }
        let version = copy_range(s, 0, 3);
        assert(version@ == s@.take(3));
        Ok(version)
    }

    /// Reads the reference-id field at `pos`; gives the reference id and the
    /// position after the field.
    pub fn read_ref_id(s: &[u8], pos: usize) -> (r: Result<(Option<u64>, usize), Error>)
        requires
            pos <= s@.len(),
        ensures
            match take_ref(s@.skip(pos as int)) {
                Ok((v, rest)) => r matches Ok((x, p)) && x == v && p <= s@.len() && s@.skip(
                    p as int,
                ) == rest,
                Err(f) => r matches Err(e) && e.reports(f),
            },
    {
        let ghost t = s@.skip(pos as int);
        if s.len() - pos < 1 {
            return Err(Error::from_failure(DecodeFailure::Eof));
        }
        assert(t[0] == s@[pos as int]);
        if s[pos] == 0u8 {
            assert(s@.skip(pos + 1) == t.skip(1));
            Ok((None, pos + 1))
        } else if s[pos] == 0xFFu8 {
            match read_u64_be(s, pos + 1) {
                Some(v) => {
                    assert(t.subrange(1, 9) == s@.subrange(pos + 1, pos + 9));
                    assert(s@.skip(pos + 9) == t.skip(9));
                    Ok((Some(v), pos + 9))
                },
                None => Err(Error::from_failure(DecodeFailure::Eof)),
            }
        } else {
            Err(Error::from_failure(DecodeFailure::Corrupted))
        }
    }

    /// Reads a namespace of `namespace_len` bytes at `pos`; a length of zero
    /// means that there is none. Gives the namespace and the position after
    /// it.
    pub fn read_namespace(s: &[u8], pos: usize, namespace_len: u16) -> (r: Result<
        (Option<String>, usize),
        Error,
    >)
        requires
            pos <= s@.len(),
        ensures
            namespace_len == 0 ==> (r matches Ok((x, p)) && x is None && p == pos),
            namespace_len > 0 ==> match take_string(s@.skip(pos as int), namespace_len as int) {
                Ok((v, rest)) => r matches Ok((x, p)) && opt_view(x) == Some(v) && p <= s@.len()
                    && s@.skip(p as int) == rest,
                Err(f) => r matches Err(e) && e.reports(f),
            },
    {
        if namespace_len > 0 {
            match EventHeader::read_string(s, pos, namespace_len as usize) {
                Ok((text, p)) => Ok((Some(text), p)),
                Err(e) => Err(e),
            }
        } else {
            Ok((None, pos))
        }
    }

    /// Reads the name field at `pos`: two length bytes, then the name. Gives
    /// the name and the position after it.
    pub fn read_name(s: &[u8], pos: usize) -> (r: Result<(String, usize), Error>)
        requires
            pos <= s@.len(),
        ensures
            match take_name(s@.skip(pos as int)) {
                Ok((v, rest)) => r matches Ok((x, p)) && x@ == v && p <= s@.len() && s@.skip(
                    p as int,
                ) == rest,
                Err(f) => r matches Err(e) && e.reports(f),
            },
    {
        let ghost t = s@.skip(pos as int);
        let n: usize = s.len();
        let name_len = match read_u16_be(s, pos) {
            Some(v) => v,
            None => {
                return Err(Error::from_failure(DecodeFailure::Eof));
            },
        };
        assert(pos + 2 <= n);
        assert(t.take(2) == s@.subrange(pos as int, pos + 2));
        assert(s@.skip(pos + 2) == t.skip(2));
        EventHeader::read_string(s, pos + 2, name_len as usize)
    }

    /// Reads a header from the front of `bytes`; bytes after the name are
    /// ignored.
    pub fn from_read(bytes: &[u8]) -> (r: Result<EventHeader, Error>)
        ensures
            match decode_header(bytes@) {
                Ok(h) => r matches Ok(x) && x@ == h,
                Err(f) => r matches Err(e) && e.reports(f),
            },
    {
        let s = bytes;
        let _version = match EventHeader::read_version(s) {
            Ok(v) => v,
            Err(e) => {
                return Err(e);
            },
        };
        let id = match read_u64_be(s, 3) {
            Some(v) => v,
            None => {
                return Err(Error::from_failure(DecodeFailure::Eof));
            },
        };
        if s.len() < 12 {
            return Err(Error::from_failure(DecodeFailure::Eof));
        }
        let event_type = match EventType::from_u8(s[11]) {
            Some(t) => t,
            None => {
                return Err(Error::from_failure(DecodeFailure::Corrupted));
            },
        };
        let (ref_id, p1) = match EventHeader::read_ref_id(s, 12) {
            Ok(v) => v,
            Err(e) => {
                return Err(e);
            },
        };
        let ghost s1 = s@.skip(p1 as int);
        let namespace_len = match read_u16_be(s, p1) {
            Some(v) => v,
            None => {
                return Err(Error::from_failure(DecodeFailure::Eof));
            },
        };
        assert(s1.take(2) == s@.subrange(p1 as int, p1 + 2));
        assert(s@.skip(p1 + 2) == s1.skip(2));
        let (namespace, p2) = match EventHeader::read_namespace(s, p1 + 2, namespace_len) {
            Ok(v) => v,
            Err(e) => {
                return Err(e);
            },
        };
        let (name, _p3) = match EventHeader::read_name(s, p2) {
            Ok(v) => v,
            Err(e) => {
                return Err(e);
            },
        };
        Ok(EventHeader { id, event_type, ref_id, namespace, name })
    }
}

/// Whether a header reads back as itself: its namespace, if any, is not empty,
/// and namespace and name are shorter than 2^16 bytes.
pub open spec fn header_wf(h: HeaderView) -> bool {
    &&& (h.namespace matches Some(n) ==> 0 < encode_utf8(n).len() < 0x10000)
    &&& encode_utf8(h.name).len() < 0x10000
}

/// Whether an event reads back as itself: its header does, the header is
/// shorter than 2^16 bytes, and header and data together fit the length field.
pub open spec fn event_wf(e: EventView) -> bool {
    &&& header_wf(e.header)
    &&& header_bytes(e.header).len() < 0x10000
    &&& e.data.len() + 0x10000 <= u64::MAX
}

proof fn lemma_take_string(c: Seq<char>, rest: Seq<u8>)
    ensures
        take_string(encode_utf8(c) + rest, encode_utf8(c).len() as int) == Ok::<
            (Seq<char>, Seq<u8>),
            DecodeFailure,
        >((c, rest)),
{
    broadcast use encode_utf8_valid_utf8, encode_utf8_decode_utf8;

    let b = encode_utf8(c);
    assert((b + rest).take(b.len() as int) == b);
    assert((b + rest).skip(b.len() as int) == rest);
}

proof fn lemma_string_field(c: Seq<char>, rest: Seq<u8>)
    requires
        encode_utf8(c).len() < 0x10000,
    ensures
        (string_field(c) + rest).len() >= 2,
        from_be16((string_field(c) + rest).take(2)) == encode_utf8(c).len(),
        (string_field(c) + rest).skip(2) == encode_utf8(c) + rest,
{
    let b = encode_utf8(c);
    lemma_be16_roundtrip(b.len() as u16);
    assert((string_field(c) + rest).take(2) == be16(b.len() as u16));
    assert((string_field(c) + rest).skip(2) == b + rest);
}

proof fn lemma_take_ref(r: Option<u64>, rest: Seq<u8>)
    ensures
        take_ref(ref_field(r) + rest) == Ok::<(Option<u64>, Seq<u8>), DecodeFailure>((r, rest)),
{
    let s = ref_field(r) + rest;
    match r {
        Some(x) => {
            lemma_be64_roundtrip(x);
            assert(s.subrange(1, 9) == be64(x));
            assert(s.skip(9) == rest);
        },
        None => {
            assert(s.skip(1) == rest);
        },
    }
}

proof fn lemma_take_namespace(n: Option<Seq<char>>, rest: Seq<u8>)
    requires
        n matches Some(c) ==> 0 < encode_utf8(c).len() < 0x10000,
    ensures
        take_namespace(namespace_field(n) + rest) == Ok::<
            (Option<Seq<char>>, Seq<u8>),
            DecodeFailure,
        >((n, rest)),
{
    match n {
        Some(c) => {
            lemma_string_field(c, rest);
            lemma_take_string(c, rest);
        },
        None => {
            lemma_be16_roundtrip(0);
            let s = namespace_field(n) + rest;
            assert(s.take(2) == be16(0));
            assert(s.skip(2) == rest);
        },
    }
}

/// A header reads back as itself, whatever bytes follow it.
#[verifier::rlimit(40)]
pub proof fn lemma_header_roundtrip(h: HeaderView, extra: Seq<u8>)
    requires
        header_wf(h),
    ensures
        decode_header(header_bytes(h) + extra) == Ok::<HeaderView, DecodeFailure>(h),
{
    let s = header_bytes(h) + extra;
    let name_part = string_field(h.name) + extra;
    let ns_part = namespace_field(h.namespace) + name_part;
    let ref_part = ref_field(h.ref_id) + ns_part;
    assert(s == format_version() + be64(h.id) + seq![event_type_number(h.event_type)]
        + ref_part);
    lemma_be64_roundtrip(h.id);
    assert(s.subrange(3, 11) == be64(h.id));
    assert(s[11] == event_type_number(h.event_type));
    assert(s.skip(12) == ref_part);
    lemma_take_ref(h.ref_id, ns_part);
    lemma_take_namespace(h.namespace, name_part);
    lemma_string_field(h.name, extra);
    lemma_take_string(h.name, extra);
    assert(take_name(name_part) == Ok::<(Seq<char>, Seq<u8>), DecodeFailure>((h.name, extra)));
    assert(event_type_of(s[11]) == Some(h.event_type));
}

proof fn lemma_take_string_extends(t: Seq<u8>, len: int, extra: Seq<u8>)
    requires
        0 <= len,
        take_string(t, len) is Ok,
    ensures
        take_string(t + extra, len) == match take_string(t, len) {
            Ok((v, rest)) => Ok::<(Seq<char>, Seq<u8>), DecodeFailure>((v, rest + extra)),
            Err(f) => Err(f),
        },
{
    assert((t + extra).take(len) == t.take(len));
    assert((t + extra).skip(len) == t.skip(len) + extra);
}

proof fn lemma_take_ref_extends(t: Seq<u8>, extra: Seq<u8>)
    requires
        take_ref(t) is Ok,
    ensures
        take_ref(t + extra) == match take_ref(t) {
            Ok((v, rest)) => Ok::<(Option<u64>, Seq<u8>), DecodeFailure>((v, rest + extra)),
            Err(f) => Err(f),
        },
{
    assert((t + extra)[0] == t[0]);
    assert((t + extra).skip(1) == t.skip(1) + extra);
    if t[0] == 0xFF {
        assert((t + extra).subrange(1, 9) == t.subrange(1, 9));
        assert((t + extra).skip(9) == t.skip(9) + extra);
    }
}

proof fn lemma_take_namespace_extends(t: Seq<u8>, extra: Seq<u8>)
    requires
        take_namespace(t) is Ok,
    ensures
        take_namespace(t + extra) == match take_namespace(t) {
            Ok((v, rest)) => Ok::<(Option<Seq<char>>, Seq<u8>), DecodeFailure>((v, rest + extra)),
            Err(f) => Err(f),
        },
{
    assert((t + extra).take(2) == t.take(2));
    assert((t + extra).skip(2) == t.skip(2) + extra);
    if from_be16(t.take(2)) > 0 {
        lemma_take_string_extends(t.skip(2), from_be16(t.take(2)) as int, extra);
    }
}

proof fn lemma_take_name_extends(t: Seq<u8>, extra: Seq<u8>)
    requires
        take_name(t) is Ok,
    ensures
        take_name(t + extra) == match take_name(t) {
            Ok((v, rest)) => Ok::<(Seq<char>, Seq<u8>), DecodeFailure>((v, rest + extra)),
            Err(f) => Err(f),
        },
{
    assert((t + extra).take(2) == t.take(2));
    assert((t + extra).skip(2) == t.skip(2) + extra);
    lemma_take_string_extends(t.skip(2), from_be16(t.take(2)) as int, extra);
}

/// Bytes appended to a header are ignored: bytes that hold a header still
/// hold the same header with any bytes after them.
pub proof fn lemma_header_extension(s: Seq<u8>, extra: Seq<u8>)
    requires
        decode_header(s) is Ok,
    ensures
        decode_header(s + extra) == decode_header(s),
{
    let t = s + extra;
    assert(t[0] == s[0] && t[1] == s[1] && t[2] == s[2] && t[11] == s[11]);
    assert(t.subrange(3, 11) == s.subrange(3, 11));
    assert(t.skip(12) == s.skip(12) + extra);
    lemma_take_ref_extends(s.skip(12), extra);
    let (r, s1) = take_ref(s.skip(12)).unwrap();
    lemma_take_namespace_extends(s1, extra);
    let (n, s2) = take_namespace(s1).unwrap();
    lemma_take_name_extends(s2, extra);
}

/// An event reads back as itself, whatever bytes follow it, and its length
/// prefix is consistent.
pub proof fn lemma_event_roundtrip(e: EventView, extra: Seq<u8>)
    requires
        event_wf(e),
    ensures
        frame_consistent(event_bytes(e) + extra),
        decode_event(event_bytes(e) + extra) == Ok::<EventView, DecodeFailure>(e),
{
    let hb = header_bytes(e.header);
    let hl = hb.len() as u16;
    let total = (hl as int + e.data.len()) as u64;
    let s = event_bytes(e) + extra;
    lemma_be64_roundtrip(total);
    lemma_be16_roundtrip(hl);
    assert(s.take(8) == be64(total));
    assert(s.subrange(8, 10) == be16(hl));
    let r = s.skip(10);
    assert(r == hb + (e.data + extra));
    assert(r.take(hl as int) == hb);
    lemma_header_roundtrip(e.header, seq![]);
    assert(hb + Seq::<u8>::empty() == hb);
    assert(r.skip(hl as int) == e.data + extra);
    assert((e.data + extra).take(e.data.len() as int) == e.data);
}

impl Event {
    /// An event with the given id, namespace, name, payload, reference id and
    /// type.
    pub fn new(
        id: u64,
        namespace: Option<String>,
        name: String,
        data: Vec<u8>,
        ref_id: Option<u64>,
        event_type: EventType,
    ) -> (e: Event)
        ensures
            e@ == (EventView {
                header: HeaderView {
                    id,
                    event_type,
                    ref_id,
                    namespace: opt_view(namespace),
                    name: name@,
                },
                data: data@,
            }),
    {
        Event { header: EventHeader { id, event_type, ref_id, namespace, name }, data }
    }

    /// An event that starts a conversation.
    pub fn initiator(id: u64, namespace: Option<String>, name: String, data: Vec<u8>) -> (e: Event)
        ensures
            e@ == (EventView {
                header: HeaderView {
                    id,
                    event_type: EventType::Initiator,
                    ref_id: None,
                    namespace: opt_view(namespace),
                    name: name@,
                },
                data: data@,
            }),
    {
        Event::new(id, namespace, name, data, None, EventType::Initiator)
    }

    /// A reply to the event `ref_id`.
    pub fn response(id: u64, namespace: Option<String>, name: String, data: Vec<u8>, ref_id: u64) -> (e: Event)
        ensures
            e@ == (EventView {
                header: HeaderView {
                    id,
                    event_type: EventType::Response,
                    ref_id: Some(ref_id),
                    namespace: opt_view(namespace),
                    name: name@,
                },
                data: data@,
            }),
    {
        Event::new(id, namespace, name, data, Some(ref_id), EventType::Response)
    }

    /// A reply to the event `ref_id` that reports a failure.
    pub fn error(id: u64, namespace: Option<String>, name: String, data: Vec<u8>, ref_id: u64) -> (e: Event)
        ensures
            e@ == (EventView {
                header: HeaderView {
                    id,
                    event_type: EventType::Error,
                    ref_id: Some(ref_id),
                    namespace: opt_view(namespace),
                    name: name@,
                },
                data: data@,
            }),
    {
        Event::new(id, namespace, name, data, Some(ref_id), EventType::Error)
    }

    /// The last reply to the event `ref_id`, which may carry a final payload.
    pub fn end(id: u64, namespace: Option<String>, name: String, data: Vec<u8>, ref_id: u64) -> (e: Event)
        ensures
            e@ == (EventView {
                header: HeaderView {
                    id,
                    event_type: EventType::End,
                    ref_id: Some(ref_id),
                    namespace: opt_view(namespace),
                    name: name@,
                },
                data: data@,
            }),
    {
        Event::new(id, namespace, name, data, Some(ref_id), EventType::End)
    }

    /// The id of the event.
    pub fn id(&self) -> (r: u64)
        ensures
            r == self@.header.id,
    {
        self.header.id
    }

    /// The type of the event.
    pub fn event_type(&self) -> (r: EventType)
        ensures
            r == self@.header.event_type,
    {
        self.header.event_type
    }

    /// The id of the event this one replies to, if any.
    pub fn reference_id(&self) -> (r: Option<u64>)
        ensures
            r == self@.header.ref_id,
    {
        self.header.ref_id
    }

    /// Decodes the payload as a `T`.
    pub fn payload<T: EventReceivePayload>(&self) -> (r: Result<T, Error>)
        ensures
            match T::parse_payload(self@.data) {
                Some(v) => r matches Ok(out) && out@ == v,
                None => r is Err,
            },
    {
        T::from_payload_bytes(self.data.as_slice())
    }

    /// The payload bytes.
    pub fn data_raw(&self) -> (r: &[u8])
        ensures
            r@ == self@.data,
    {
        self.data.as_slice()
    }

    /// The namespace of the event.
    pub fn namespace(&self) -> (r: &Option<String>)
        ensures
            opt_view(*r) == self@.header.namespace,
    {
        &self.header.namespace
    }

    /// The name of the event.
    pub fn name(&self) -> (r: &str)
        ensures
            r@ == self@.header.name,
    {
        self.header.name.as_str()
    }

    /// The bytes the event is written as.
    pub fn into_bytes(self) -> (r: Result<Vec<u8>, Error>)
        requires
            self@.data.len() + 0x10000 <= u64::MAX,
        ensures
            r matches Ok(b) && b@ == event_bytes(self@),
    {
        let ghost v = self@;
        let data = self.data;
        let header_bytes = self.header.into_bytes();
        let header_length = header_bytes.len() as u16;
        let total_length = header_length as u64 + data.len() as u64;
        let mut buf: Vec<u8> = Vec::new();
        push_u64_be(&mut buf, total_length);
        push_u16_be(&mut buf, header_length);
        push_bytes(&mut buf, header_bytes.as_slice());
        push_bytes(&mut buf, data.as_slice());
        assert(buf@ == event_bytes(v));
        Ok(buf)
    }

    /// Reads an event from the front of `bytes`: the length prefix, the header,
    /// then the data. Bytes after the event are left alone.
    pub fn from_bytes(bytes: &[u8]) -> (r: Result<Event, Error>)
        requires
            frame_consistent(bytes@),
        ensures
            match decode_event(bytes@) {
                Ok(e) => r matches Ok(x) && x@ == e,
                Err(f) => r matches Err(err) && err.reports(f),
            },
    {
        let n = bytes.len();
        let total_length = match read_u64_be(bytes, 0) {
            Some(v) => v,
            None => {
                return Err(Error::from_failure(DecodeFailure::Eof));
            },
        };
        let header_length = match read_u16_be(bytes, 8) {
            Some(v) => v,
            None => {
                return Err(Error::from_failure(DecodeFailure::Eof));
            },
        };
        assert(bytes@.take(8) == bytes@.subrange(0, 8));
        let data_length = data_length(total_length, header_length);
        if n - 10 < header_length as usize {
            return Err(Error::from_failure(DecodeFailure::Eof));
        }
        let hl = header_length as usize;
        let header_bytes = copy_range(bytes, 10, hl);
        assert(header_bytes@ == bytes@.skip(10).take(hl as int));
        let header = match EventHeader::from_read(header_bytes.as_slice()) {
            Ok(h) => h,
            Err(e) => {
                return Err(e);
            },
        };
        let p = 10 + hl;
        if ((n - p) as u64) < data_length {
            return Err(Error::from_failure(DecodeFailure::Eof));
        }
        let data = copy_range(bytes, p, data_length as usize);
        assert(data@ == bytes@.skip(10).skip(hl as int).take(data_length as int));
        Ok(Event { header, data })
    }

    /// Builds an event from its header bytes and its data, as read from a
    /// stream after the length prefix.
    pub fn from_parts(header_bytes: &[u8], data: Vec<u8>) -> (r: Result<Event, Error>)
        ensures
            match decode_header(header_bytes@) {
                Ok(h) => r matches Ok(x) && x@ == (EventView { header: h, data: data@ }),
                Err(f) => r matches Err(err) && err.reports(f),
            },
    {
        match EventHeader::from_read(header_bytes) {
            Ok(header) => Ok(Event { header, data }),
            Err(e) => Err(e),
        }
    }
}

/// The length of the data of an event, from the total length and the header
/// length of its length prefix.
pub fn data_length(total_length: u64, header_length: u16) -> (n: u64)
    requires
        header_length <= total_length,
    ensures
        n == total_length - header_length,
{
    total_length - header_length as u64
}

} // verus!
