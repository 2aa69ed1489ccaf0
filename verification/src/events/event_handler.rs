//! Handler results and the table of callbacks registered by event name.

use vstd::prelude::*;
use vstd::hash_map::StringHashMap;
use crate::error::Error;
use crate::events::payload::{BytePayload, EventSendPayload};

verus! {

/// What a handler answers with: the payload bytes of its final reply.
#[derive(Debug)]
pub struct Response(Vec<u8>);

impl View for Response {
    type V = Seq<u8>;

    closed spec fn view(&self) -> Seq<u8> {
        self.0@
    }
}

impl Response {
    /// A response carrying the encoded `payload`, or the encoding error.
    pub fn payload<P: EventSendPayload>(payload: P) -> (r: Result<Response, Error>)
        ensures
            match P::payload_bytes(payload@) {
                Some(b) => r matches Ok(resp) && resp@ == b,
                None => r is Err,
            },
    {
        match payload.to_payload_bytes() {
            Ok(bytes) => Ok(Response(bytes)),
            Err(e) => Err(e),
        }
    }

    /// A response without payload.
    pub fn empty() -> (r: Response)
        ensures
            r@ == Seq::<u8>::empty(),
    {
        Response(Vec::new())
    }

    /// The payload of the response as a raw byte payload.
    pub fn into_byte_payload(self) -> (p: BytePayload)
        ensures
            p@ == self@,
    {
        BytePayload::new(self.0)
    }
}

/// The callbacks registered by event name.
#[verifier::reject_recursive_types(C)]
pub struct EventHandler<C> {
    callbacks: StringHashMap<C>,
}

impl<C> View for EventHandler<C> {
    type V = Map<Seq<char>, C>;

    closed spec fn view(&self) -> Map<Seq<char>, C> {
        self.callbacks@
    }
}

impl<C> EventHandler<C> {
    /// A handler without callbacks.
    pub fn new() -> (h: EventHandler<C>)
        ensures
            h@ == Map::<Seq<char>, C>::empty(),
    {
        EventHandler { callbacks: StringHashMap::new() }
    }

    /// Registers `callback` for events named `name`, replacing any callback
    /// registered for that name before.
    pub fn on(&mut self, name: &str, callback: C)
        ensures
            final(self)@ == old(self)@.insert(name@, callback),
    {
        self.callbacks.insert(name.to_owned(), callback);
    }

    /// The callback registered for events named `name`, if any.
    pub fn callback(&self, name: &str) -> (r: Option<&C>)
        ensures
            match r {
                Some(c) => self@.contains_key(name@) && *c == self@[name@],
                None => !self@.contains_key(name@),
            },
    {
        self.callbacks.get(name)
    }

    /// Whether a callback is registered for events named `name`.
    pub fn has_callback(&self, name: &str) -> (r: bool)
        ensures
            r == self@.contains_key(name@),
    {
        self.callbacks.contains_key(name)
    }
}

} // verus!
