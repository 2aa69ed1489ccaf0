//! The payload of error events.

use vstd::prelude::*;
use vstd::utf8::*;
use crate::error::{decimal, push_decimal, DecodeFailure, Error};
use vstd::string::StringExecFns;
use crate::events::payload::{EventReceivePayload, EventSendPayload};
use crate::text::{string_bytes, string_from_utf8};
use crate::wire::{be16, be32, from_be16, from_be32, push_u16_be, push_u32_be, push_bytes, read_u16_be, read_u32_be, copy_range, lemma_be16_roundtrip, lemma_be32_roundtrip};

verus! {

/// The name of the event that reports a failed handler.
pub const ERROR_EVENT_NAME: &'static str = "error";

/// The name of the event that ends the replies to an event.
pub const END_EVENT_NAME: &'static str = "end";

/// The data of an error event: a numeric code and a message.
///
/// On the wire: the code (two bytes, big-endian), the length of the UTF-8
/// message (four bytes, big-endian), the message.
#[derive(Clone, Debug)]
pub struct ErrorEventData {
    /// The code of the error.
    pub code: u16,
    /// The message of the error.
    pub message: String,
}

/// The abstract value of an [`ErrorEventData`].
#[verifier::ext_equal]
pub struct ErrorEventView {
    /// The code of the error.
    pub code: u16,
    /// The characters of the message.
    pub message: Seq<char>,
}

impl View for ErrorEventData {
    type V = ErrorEventView;

    open spec fn view(&self) -> ErrorEventView {
        ErrorEventView { code: self.code, message: self.message@ }
    }
}

impl ErrorEventData {
    /// The text of the error: `IPC Code <code>: '<message>'`.
    pub fn describe(&self) -> (s: String)
        ensures
            s@ == "IPC Code "@ + decimal(self.code as nat) + ": '"@ + self.message@ + "'"@,
    {
        let mut s = String::from_str("IPC Code ");
        push_decimal(&mut s, self.code as u64);
        s.append(": '");
        s.append(self.message.as_str());
        s.append("'");
        s
    }
}

/// The bytes an error event with view `v` is sent as.
pub open spec fn error_event_bytes(v: ErrorEventView) -> Seq<u8> {
    let m = encode_utf8(v.message);
    be16(v.code) + be32(m.len() as u32) + m
}

/// What the bytes `b` of an error event payload hold.
pub open spec fn decode_error_event(b: Seq<u8>) -> Result<ErrorEventView, DecodeFailure> {
    if b.len() < 2 {
        Err(DecodeFailure::Eof)
    } else if b.len() < 6 {
        Err(DecodeFailure::Eof)
    } else {
        let l = from_be32(b.subrange(2, 6)) as int;
        if b.len() - 6 < l {
            Err(DecodeFailure::Eof)
        } else {
            let m = b.subrange(6, 6 + l);
            if !valid_utf8(m) {
                Err(DecodeFailure::Corrupted)
            } else {
                Ok(ErrorEventView { code: from_be16(b.take(2)), message: decode_utf8(m) })
            }
        }
    }
}

impl EventSendPayload for ErrorEventData {
    open spec fn payload_bytes(v: ErrorEventView) -> Option<Seq<u8>> {
        Some(error_event_bytes(v))
    }

    fn to_payload_bytes(self) -> (r: Result<Vec<u8>, Error>) {
        let mut buf: Vec<u8> = Vec::new();
        push_u16_be(&mut buf, self.code);
        let message = string_bytes(&self.message);
        push_u32_be(&mut buf, message.len() as u32);
        push_bytes(&mut buf, message.as_slice());
        Ok(buf)
    }
}

impl EventReceivePayload for ErrorEventData {
    open spec fn parse_payload(b: Seq<u8>) -> Option<ErrorEventView> {
        match decode_error_event(b) {
            Ok(v) => Some(v),
            Err(_) => None,
        }
    }

    fn from_payload_bytes(bytes: &[u8]) -> (r: Result<ErrorEventData, Error>)
        ensures
            r matches Err(e) ==> (decode_error_event(bytes@) matches Err(f) && e.reports(f)),
    {
        let code = match read_u16_be(bytes, 0) {
            Some(c) => c,
            None => {
                return Err(Error::from_failure(DecodeFailure::Eof));
            },
        };
        let len = match read_u32_be(bytes, 2) {
            Some(l) => l,
            None => {
                return Err(Error::from_failure(DecodeFailure::Eof));
            },
        };
        if ((bytes.len() - 6) as u64) < (len as u64) {
            return Err(Error::from_failure(DecodeFailure::Eof));
        }
        let message_bytes = copy_range(bytes, 6, len as usize);
        proof {
            assert(bytes@.take(2) == bytes@.subrange(0, 2));
        }
        match string_from_utf8(message_bytes) {
            Some(message) => Ok(ErrorEventData { code, message }),
            None => Err(Error::from_failure(DecodeFailure::Corrupted)),
        }
    }
}

/// An error event payload reads back as the data that was sent, provided
/// the message is shorter than 2^32 bytes.
pub proof fn lemma_error_event_roundtrip(v: ErrorEventView)
    requires
        encode_utf8(v.message).len() < 0x1_0000_0000,
    ensures
        decode_error_event(error_event_bytes(v)) == Ok::<ErrorEventView, DecodeFailure>(v),
{
    broadcast use encode_utf8_valid_utf8, encode_utf8_decode_utf8;

    let m = encode_utf8(v.message);
    let b = error_event_bytes(v);
    lemma_be16_roundtrip(v.code);
    lemma_be32_roundtrip(m.len() as u32);
    assert(b.take(2) == be16(v.code));
    assert(b.subrange(2, 6) == be32(m.len() as u32));
    assert(b.subrange(6, 6 + m.len() as int) == m);
}

} // verus!
