//! The error type of the library and the text of its version error.

use vstd::prelude::*;
use crate::events::error_event::ErrorEventData;
use crate::events::payload_serializer::SerializationError;

verus! {

/// The kind of an input/output failure.
#[derive(Clone, Copy, Debug, PartialEq, Eq, Structural)]
pub enum IoErrorKind {
    /// The input ended before a value could be read completely.
    UnexpectedEof,
    /// The input held bytes that could not be accepted (for example a failed
    /// authentication tag).
    InvalidData,
    /// Any other failure of the transport.
    Other,
}

/// Everything that can go wrong in the library.
#[derive(Debug)]
pub enum Error {
    /// An input/output failure of the given kind.
    IoError(IoErrorKind),
    /// A payload could not be serialized or deserialized.
    Serialization(SerializationError),
    /// A server or client could not be built.
    BuildError(String),
    /// A free-form error message.
    Message(String),
    /// A reply channel was closed before a reply arrived.
    ReceiveError,
    /// A received event was malformed.
    CorruptedEvent,
    /// An event could not be passed on.
    SendError,
    /// The peer answered with an error event.
    ErrorEvent(ErrorEventData),
    /// No reply arrived in time.
    Timeout,
    /// A received event was written in an unsupported format version.
    UnsupportedVersion(String),
    /// An operation was attempted in a state that does not allow it.
    InvalidState,
    /// The peer presented a public key that is not trusted.
    UnknownPeer([u8; 32]),
}

/// The ways in which decoding bytes can fail, as contracts speak of them.
#[derive(Clone, Copy, Debug, PartialEq, Eq, Structural)]
pub enum DecodeFailure {
    /// The bytes ended early.
    Eof,
    /// The bytes held a value that is not allowed.
    Corrupted,
    /// The bytes started with the given unsupported format version.
    Version(u8, u8, u8),
}

/// The character of the decimal digit `d` (for `d < 10`).
pub open spec fn digit_char(d: nat) -> char {
    ((48 + d) as u8) as char
}

/// The decimal notation of `n`, without leading zeros.
pub open spec fn decimal(n: nat) -> Seq<char>
    decreases n,
{
    if n < 10 {
        seq![digit_char(n)]
    } else {
        decimal(n / 10).push(digit_char(n % 10))
    }
}

/// Every number of `v` in decimal notation, each followed by a dot.
pub open spec fn dotted_with_trailing(v: Seq<u8>) -> Seq<char>
    decreases v.len(),
{
    if v.len() == 0 {
        seq![]
    } else {
        dotted_with_trailing(v.drop_last()) + decimal(v.last() as nat).push('.')
    }
}

/// The numbers of `v` in decimal notation, separated by dots (`[0, 9, 1]`
/// reads `0.9.1`).
pub open spec fn version_string(v: Seq<u8>) -> Seq<char> {
    if v.len() == 0 {
        seq![]
    } else {
        dotted_with_trailing(v).drop_last()
    }
}

impl Error {
    /// Whether this error is the one that reports the decoding failure `f`.
    pub open spec fn reports(self, f: DecodeFailure) -> bool {
        match f {
            DecodeFailure::Eof => self matches Error::IoError(IoErrorKind::UnexpectedEof),
            DecodeFailure::Corrupted => self is CorruptedEvent,
            DecodeFailure::Version(a, b, c) => self matches Error::UnsupportedVersion(s) && s@
                == version_string(seq![a, b, c]),
        }
    }

    /// The error for a decoding failure.
    pub fn from_failure(f: DecodeFailure) -> (e: Error)
        ensures
            e.reports(f),
    {
        match f {
            DecodeFailure::Eof => Error::IoError(IoErrorKind::UnexpectedEof),
            DecodeFailure::Corrupted => Error::CorruptedEvent,
            DecodeFailure::Version(a, b, c) => {
                let mut v: Vec<u8> = Vec::new();
                v.push(a);
                v.push(b);
                v.push(c);
                assert(v@ == seq![a, b, c]);
                Error::unsupported_version_vec(v)
            },
        }
    }

    /// The error for an event written in an unsupported format version; the
    /// version is shown with its numbers separated by dots.
    pub fn unsupported_version_vec(version: Vec<u8>) -> (e: Error)
        ensures
            e matches Error::UnsupportedVersion(s) && s@ == version_string(version@),
    {
        let mut text = String::new();
        let mut i: usize = 0;
        while i < version.len()
            invariant
                i <= version@.len(),
                text@ == dotted_with_trailing(version@.take(i as int)),
            decreases version@.len() - i,
        {
            push_decimal(&mut text, version[i] as u64);
            push_char(&mut text, '.');
            i = i + 1;
            assert(version@.take(i as int).drop_last() == version@.take((i - 1) as int));
        }
        assert(version@.take(version@.len() as int) == version@);
        if version.len() > 0 {
            pop_char(&mut text);
        }
        Error::UnsupportedVersion(text)
    }
}

/// Appends the decimal notation of `n` to `text`.
pub(crate) fn push_decimal(text: &mut String, n: u64)
    ensures
        final(text)@ == old(text)@ + decimal(n as nat),
    decreases n,
{
    if n >= 10 {
        push_decimal(text, n / 10);
    }
    let digit: u8 = (n % 10) as u8;
    push_char(text, (48u8 + digit) as char);
    proof {
        let nn = n as nat;
        assert(digit_char(nn % 10) == (48u8 + digit) as char);
        if nn >= 10 {
            assert(decimal(nn) == decimal(nn / 10).push(digit_char(nn % 10)));
        } else {
            assert(nn % 10 == nn);
        }
    }
}

/// Appends `c` to `text` (`String::push`).
#[verifier::external_body]
fn push_char(text: &mut String, c: char)
    ensures
        final(text)@ == old(text)@.push(c),
{
    text.push(c);
}

/// Removes the last character of `text` (`String::pop`).
#[verifier::external_body]
fn pop_char(text: &mut String)
    requires
        old(text)@.len() > 0,
    ensures
        final(text)@ == old(text)@.drop_last(),
{
    text.pop();
}

impl From<String> for Error {
    fn from(s: String) -> (e: Error) {
        Error::Message(s)
    }
}

impl vstd::std_specs::convert::FromSpecImpl<String> for Error {
    open spec fn obeys_from_spec() -> bool {
        true
    }

    open spec fn from_spec(s: String) -> Error {
        Error::Message(s)
    }
}

impl Error {
    /// The error that carries the message `s`.
    pub fn message(s: &str) -> (e: Error)
        ensures
            e matches Error::Message(m) && m@ == s@,
    {
        Error::Message(s.to_owned())
    }
}

} // verus!
