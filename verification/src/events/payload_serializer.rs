//! The serialization formats that typed payloads can be written in.

use vstd::prelude::*;
use crate::error::{DecodeFailure, Error, IoErrorKind};
use crate::wire::copy_range;

verus! {

/// A failure to serialize or deserialize a typed payload.
///
/// The failures reported by the format crates are carried as their messages.
#[derive(Debug)]
pub enum SerializationError {
    /// MessagePack encoding failed.
    SerializeRmp(String),
    /// MessagePack decoding failed.
    DeserializeRmp(String),
    /// Bincode encoding or decoding failed.
    Bincode(String),
    /// Postcard encoding or decoding failed.
    Postcard(String),
    /// JSON encoding or decoding failed.
    Json(String),
    /// Reading the payload failed.
    Io(IoErrorKind),
    /// The format is not available.
    UnavailableFormat(DynamicSerializer),
    /// No format has the given number.
    UnknownFormat(usize),
}

/// A serialization format for typed payloads.
#[derive(Clone, Copy, Debug, PartialEq, Eq, Structural, PartialOrd, Ord)]
pub enum DynamicSerializer {
    /// MessagePack (number 0).
    Messagepack,
    /// Bincode (number 1).
    Bincode,
    /// Postcard (number 2).
    Postcard,
    /// JSON (number 3).
    Json,
}

/// The format that has the number `num`, if any.
pub open spec fn format_of(num: usize) -> Option<DynamicSerializer> {
    if num == 0 {
        Some(DynamicSerializer::Messagepack)
    } else if num == 1 {
        Some(DynamicSerializer::Bincode)
    } else if num == 2 {
        Some(DynamicSerializer::Postcard)
    } else if num == 3 {
        Some(DynamicSerializer::Json)
    } else {
        None
    }
}

impl DynamicSerializer {
    /// The first format in the order MessagePack, Bincode, Postcard, JSON that
    /// is available; all four are available in this build.
    pub fn first_available() -> (s: DynamicSerializer)
        ensures
            s == DynamicSerializer::Messagepack,
    {
        DynamicSerializer::Messagepack
    }

    /// The format with the number `num`, or `UnknownFormat(num)` when there is
    /// none.
    pub fn from_primitive(num: usize) -> (r: Result<DynamicSerializer, SerializationError>)
        ensures
            match format_of(num) {
                Some(f) => r == Ok::<DynamicSerializer, SerializationError>(f),
                None => r matches Err(SerializationError::UnknownFormat(n)) && n == num,
            },
    {
        match num {
            0 => Ok(DynamicSerializer::Messagepack),
            1 => Ok(DynamicSerializer::Bincode),
            2 => Ok(DynamicSerializer::Postcard),
            3 => Ok(DynamicSerializer::Json),
            n => Err(SerializationError::UnknownFormat(n)),
        }
    }
}

/// The number of a format.
pub open spec fn format_number(f: DynamicSerializer) -> u8 {
    match f {
        DynamicSerializer::Messagepack => 0,
        DynamicSerializer::Bincode => 1,
        DynamicSerializer::Postcard => 2,
        DynamicSerializer::Json => 3,
    }
}

impl DynamicSerializer {
    /// The number of the format.
    pub fn to_primitive(&self) -> (n: u8)
        ensures
            n == format_number(*self),
    {
        match self {
            DynamicSerializer::Messagepack => 0,
            DynamicSerializer::Bincode => 1,
            DynamicSerializer::Postcard => 2,
            DynamicSerializer::Json => 3,
        }
    }
}

/// The bytes of a typed payload written in `format`: the number of the
/// format (one byte), then the serialized value `body`.
pub open spec fn serde_payload_bytes(format: DynamicSerializer, body: Seq<u8>) -> Seq<u8> {
    seq![format_number(format)] + body
}

/// Writes the serialized value `body` as a typed payload in `format`.
pub fn frame_serde_payload(format: DynamicSerializer, body: &[u8]) -> (b: Vec<u8>)
    ensures
        b@ == serde_payload_bytes(format, body@),
{
    let mut buf: Vec<u8> = Vec::new();
    buf.push(format.to_primitive());
    crate::wire::push_bytes(&mut buf, body);
    buf
}

/// Splits a typed payload into its format and the serialized value. Fails
/// when the payload is empty, and with `UnknownFormat` when its first byte is
/// not the number of a format.
pub fn split_serde_payload(bytes: &[u8]) -> (r: Result<(DynamicSerializer, Vec<u8>), Error>)
    ensures
        bytes@.len() == 0 ==> (r matches Err(e) && e.reports(DecodeFailure::Eof)),
        bytes@.len() > 0 ==> match format_of(bytes@[0] as usize) {
            Some(f) => r matches Ok((g, body)) && g == f && body@ == bytes@.skip(1),
            None => r matches Err(Error::Serialization(SerializationError::UnknownFormat(n)))
                && n == bytes@[0] as usize,
        },
{
    if bytes.len() == 0 {
        return Err(Error::from_failure(DecodeFailure::Eof));
    }
    match DynamicSerializer::from_primitive(bytes[0] as usize) {
        Ok(format) => {
            let body = copy_range(bytes, 1, bytes.len() - 1);
            assert(body@ == bytes@.skip(1));
            Ok((format, body))
        },
        Err(e) => Err(Error::Serialization(e)),
    }
}

/// A typed payload reads back as the format and the value it was written
/// with.
pub proof fn lemma_serde_payload_roundtrip(format: DynamicSerializer, body: Seq<u8>)
    ensures
        format_of(serde_payload_bytes(format, body)[0] as usize) == Some(format),
        serde_payload_bytes(format, body).skip(1) == body,
{
    assert(serde_payload_bytes(format, body).skip(1) == body);
}

} // verus!
