//! The parts of an event about to be emitted, and the event built from them.

use vstd::prelude::*;
use crate::error::Error;
use crate::events::error_event::{
    error_event_bytes, ErrorEventData, ErrorEventView, END_EVENT_NAME, ERROR_EVENT_NAME,
};
use crate::events::event::{opt_view, Event, EventType, EventView, HeaderView};
use crate::events::event_handler::Response;
use crate::events::payload::{BytePayload, EventSendPayload};

verus! {

/// The parts of an event to be emitted; once built, the event itself.
///
/// Building takes the parts out, so an event is built at most once.
pub struct EventMetadata<P> {
    event: Option<Event>,
    event_namespace: Option<Option<String>>,
    event_name: Option<String>,
    res_id: Option<Option<u64>>,
    event_type: Option<EventType>,
    payload: Option<P>,
}

/// The abstract state of an [`EventMetadata`].
#[verifier::ext_equal]
pub struct MetadataView<V> {
    /// The event, once built.
    pub event: Option<EventView>,
    /// The namespace, until taken.
    pub namespace: Option<Option<Seq<char>>>,
    /// The name, until taken.
    pub name: Option<Seq<char>>,
    /// The id of the event replied to, until taken.
    pub res_id: Option<Option<u64>>,
    /// The event type, until taken.
    pub event_type: Option<EventType>,
    /// The payload, until taken.
    pub payload: Option<V>,
}

impl<V> MetadataView<V> {
    /// Whether all parts are still present.
    pub open spec fn complete(self) -> bool {
        &&& self.namespace is Some
        &&& self.name is Some
        &&& self.res_id is Some
        &&& self.event_type is Some
        &&& self.payload is Some
    }

    /// Whether all parts have been taken.
    pub open spec fn drained(self) -> bool {
        &&& self.namespace is None
        &&& self.name is None
        &&& self.res_id is None
        &&& self.event_type is None
        &&& self.payload is None
    }

    /// The event the parts describe, with id `id` and payload bytes `data`.
    pub open spec fn event_with(self, id: u64, data: Seq<u8>) -> EventView {
        EventView {
            header: HeaderView {
                id,
                event_type: self.event_type.unwrap(),
                ref_id: self.res_id.unwrap(),
                namespace: self.namespace.unwrap(),
                name: self.name.unwrap(),
            },
            data,
        }
    }
}

/// An event built from complete parts carries exactly those parts: the id it
/// is built with, the type, the event replied to, the namespace and the name
/// held in the parts, whatever the others are, and the data it is given.
pub proof fn lemma_event_carries_its_parts<V>(m: MetadataView<V>, id: u64, data: Seq<u8>)
    requires
        m.complete(),
    ensures
        m.event_with(id, data).header.id == id,
        m.event_with(id, data).header.event_type == m.event_type.unwrap(),
        m.event_with(id, data).header.ref_id == m.res_id.unwrap(),
        m.event_with(id, data).header.namespace == m.namespace.unwrap(),
        m.event_with(id, data).header.name == m.name.unwrap(),
        m.event_with(id, data).data == data,
{
}

/// The view of an optional event.
pub open spec fn opt_event_view(e: Option<Event>) -> Option<EventView> {
    match e {
        Some(x) => Some(x@),
        None => None,
    }
}

impl<P: View> View for EventMetadata<P> {
    type V = MetadataView<P::V>;

    closed spec fn view(&self) -> MetadataView<P::V> {
        MetadataView {
            event: opt_event_view(self.event),
            namespace: match self.event_namespace {
                Some(n) => Some(opt_view(n)),
                None => None,
            },
            name: match self.event_name {
                Some(n) => Some(n@),
                None => None,
            },
            res_id: self.res_id,
            event_type: self.event_type,
            payload: match self.payload {
                Some(p) => Some(p@),
                None => None,
            },
        }
    }
}

impl<P: EventSendPayload> EventMetadata<P> {
    /// The parts of an event named `event_name` in the namespace
    /// `event_namespace`, carrying `payload`, replying to `res_id` and of type
    /// `event_type`.
    pub fn new(
        event_name: String,
        event_namespace: Option<String>,
        payload: P,
        res_id: Option<u64>,
        event_type: EventType,
    ) -> (m: Self)
        ensures
            m@ == (MetadataView {
                event: None,
                namespace: Some(opt_view(event_namespace)),
                name: Some(event_name@),
                res_id: Some(res_id),
                event_type: Some(event_type),
                payload: Some(payload@),
            }),
    {
        EventMetadata {
            event: None,
            event_namespace: Some(event_namespace),
            event_name: Some(event_name),
            res_id: Some(res_id),
            event_type: Some(event_type),
            payload: Some(payload),
        }
    }

    /// An event that starts a conversation.
    pub fn emit(event: &str, payload: P) -> (m: Self)
        ensures
            m@ == (MetadataView {
                event: None,
                namespace: Some(None::<Seq<char>>),
                name: Some(event@),
                res_id: Some(None::<u64>),
                event_type: Some(EventType::Initiator),
                payload: Some(payload@),
            }),
    {
        EventMetadata::new(event.to_owned(), None, payload, None, EventType::Initiator)
    }

    /// An event sent to `namespace` that starts a conversation.
    pub fn emit_to(namespace: &str, event: &str, payload: P) -> (m: Self)
        ensures
            m@ == (MetadataView {
                event: None,
                namespace: Some(Some(namespace@)),
                name: Some(event@),
                res_id: Some(None::<u64>),
                event_type: Some(EventType::Initiator),
                payload: Some(payload@),
            }),
    {
        EventMetadata::new(
            event.to_owned(),
            Some(namespace.to_owned()),
            payload,
            None,
            EventType::Initiator,
        )
    }

    /// A reply to the event `event_id`.
    pub fn emit_response(event_id: u64, event: &str, payload: P) -> (m: Self)
        ensures
            m@ == (MetadataView {
                event: None,
                namespace: Some(None::<Seq<char>>),
                name: Some(event@),
                res_id: Some(Some(event_id)),
                event_type: Some(EventType::Response),
                payload: Some(payload@),
            }),
    {
        EventMetadata::new(event.to_owned(), None, payload, Some(event_id), EventType::Response)
    }

    /// A reply to the event `event_id`, sent to `namespace`.
    pub fn emit_response_to(event_id: u64, namespace: &str, event: &str, payload: P) -> (m: Self)
        ensures
            m@ == (MetadataView {
                event: None,
                namespace: Some(Some(namespace@)),
                name: Some(event@),
                res_id: Some(Some(event_id)),
                event_type: Some(EventType::Response),
                payload: Some(payload@),
            }),
    {
        EventMetadata::new(
            event.to_owned(),
            Some(namespace.to_owned()),
            payload,
            Some(event_id),
            EventType::Response,
        )
    }

    /// The event a context emits: a reply to the event it handles when it
    /// handles one (`ref_id`), otherwise an event that starts a conversation.
    pub fn for_context(ref_id: Option<u64>, namespace: Option<&str>, event: &str, payload: P) -> (m: Self)
        ensures
            m@.event is None,
            m@.namespace == Some(
                match namespace {
                    Some(n) => Some(n@),
                    None => None::<Seq<char>>,
                },
            ),
            m@.name == Some(event@),
            m@.payload == Some(payload@),
            m@.res_id == Some(ref_id),
            m@.event_type == Some(
                if ref_id is Some {
                    EventType::Response
                } else {
                    EventType::Initiator
                },
            ),
    {
        match (ref_id, namespace) {
            (Some(r), Some(n)) => EventMetadata::emit_response_to(r, n, event, payload),
            (Some(r), None) => EventMetadata::emit_response(r, event, payload),
            (None, Some(n)) => EventMetadata::emit_to(n, event, payload),
            (None, None) => EventMetadata::emit(event, payload),
        }
    }

    /// Builds the event with id `id` from the parts, taking them out. Fails
    /// with `InvalidState` when a part is missing, and with the encoding error
    /// when the payload cannot be encoded.
    fn build_event(&mut self, id: u64) -> (r: Result<(), Error>)
        requires
            old(self)@.event is None,
        ensures
            old(self)@.complete() ==> match P::payload_bytes(old(self)@.payload.unwrap()) {
                Some(b) => r is Ok && final(self)@.event == Some(old(self)@.event_with(id, b)),
                None => r is Err && final(self)@.event is None,
            },
            old(self)@.complete() ==> final(self)@.drained(),
            !old(self)@.complete() ==> (r matches Err(Error::InvalidState) && final(self)@.event is None),
    {
        let event_name = match self.event_name.take() {
            Some(n) => n,
            None => {
                return Err(Error::InvalidState);
            },
        };
        let namespace = match self.event_namespace.take() {
            Some(n) => n,
            None => {
                return Err(Error::InvalidState);
            },
        };
        let payload = match self.payload.take() {
            Some(p) => p,
            None => {
                return Err(Error::InvalidState);
            },
        };
        let res_id = match self.res_id.take() {
            Some(r) => r,
            None => {
                return Err(Error::InvalidState);
            },
        };
        let event_type = match self.event_type.take() {
            Some(t) => t,
            None => {
                return Err(Error::InvalidState);
            },
        };
        let payload_bytes = match payload.to_payload_bytes() {
            Ok(b) => b,
            Err(e) => {
                return Err(e);
            },
        };
        let event = Event::new(id, namespace, event_name, payload_bytes, res_id, event_type);
        self.event = Some(event);
        Ok(())
    }

    /// The event, built with id `id` from the parts if it was not built yet.
    pub fn get_event(&mut self, id: u64) -> (r: Result<&Event, Error>)
        ensures
            old(self)@.event matches Some(e) ==> (r matches Ok(x) && x@ == e && final(self)@ == old(self)@),
            old(self)@.event is None && old(self)@.complete() ==> match P::payload_bytes(
                old(self)@.payload.unwrap(),
            ) {
                Some(b) => r matches Ok(x) && x@ == old(self)@.event_with(id, b),
                None => r is Err,
            },
            old(self)@.event is None && !old(self)@.complete() ==> (r matches Err(Error::InvalidState)),
            old(self)@.event is None && old(self)@.complete() ==> final(self)@.drained(),
            r matches Ok(x) ==> final(self)@.event == Some(x@),
            old(self)@.event is None ==> (r matches Ok(x) ==> {
                &&& x@.header.id == id
                &&& x@.header.event_type == old(self)@.event_type.unwrap()
                &&& x@.header.ref_id == old(self)@.res_id.unwrap()
                &&& x@.header.namespace == old(self)@.namespace.unwrap()
                &&& x@.header.name == old(self)@.name.unwrap()
                &&& Some(x@.data) == P::payload_bytes(old(self)@.payload.unwrap())
            }),
    {
        if self.event.is_none() {
            match self.build_event(id) {
                Ok(()) => {},
                Err(e) => {
                    return Err(e);
                },
            }
        }
        match &self.event {
            Some(e) => Ok(e),
            None => Err(Error::InvalidState),
        }
    }

    /// The event, built with id `id` from the parts if it was not built yet,
    /// taken out of the metadata.
    pub fn take_event(self, id: u64) -> (r: Result<Option<Event>, Error>)
        ensures
            self@.event matches Some(e) ==> (r matches Ok(Some(x)) && x@ == e),
            self@.event is None && self@.complete() ==> match P::payload_bytes(
                self@.payload.unwrap(),
            ) {
                Some(b) => r matches Ok(Some(x)) && x@ == self@.event_with(id, b),
                None => r is Err,
            },
            self@.event is None && !self@.complete() ==> (r matches Err(Error::InvalidState)),
            self@.event is None ==> (r matches Ok(Some(x)) ==> {
                &&& x@.header.id == id
                &&& x@.header.event_type == self@.event_type.unwrap()
                &&& x@.header.ref_id == self@.res_id.unwrap()
                &&& x@.header.namespace == self@.namespace.unwrap()
                &&& x@.header.name == self@.name.unwrap()
                &&& Some(x@.data) == P::payload_bytes(self@.payload.unwrap())
            }),
    {
        let mut m = self;
        if m.event.is_none() {
            match m.build_event(id) {
                Ok(()) => {},
                Err(e) => {
                    return Err(e);
                },
            }
        }
        Ok(m.event.take())
    }
}

/// The event sent back after a handler ran on the event `event_id`: when the
/// handler succeeded, an end event carrying its response; when it failed, an
/// error event with code 500 and the failure's description as message. Both
/// reply to `event_id` and have no namespace.
pub fn handler_reply(event_id: u64, outcome: Result<Response, String>) -> (m: EventMetadata<BytePayload>)
    ensures
        m@.event is None,
        m@.namespace == Some(None::<Seq<char>>),
        m@.res_id == Some(Some(event_id)),
        match outcome {
            Ok(resp) => {
                &&& m@.name == Some(END_EVENT_NAME@)
                &&& m@.event_type == Some(EventType::End)
                &&& m@.payload == Some(resp@)
            },
            Err(msg) => {
                &&& m@.name == Some(ERROR_EVENT_NAME@)
                &&& m@.event_type == Some(EventType::Error)
                &&& m@.payload == Some(error_event_bytes(ErrorEventView { code: 500, message: msg@ }))
            },
        },
{
    match outcome {
        Ok(resp) => EventMetadata::new(
            END_EVENT_NAME.to_owned(),
            None,
            resp.into_byte_payload(),
            Some(event_id),
            EventType::End,
        ),
        Err(msg) => {
            let data = ErrorEventData { code: 500, message: msg };
            let bytes = match data.to_payload_bytes() {
                Ok(b) => b,
                Err(_) => Vec::new(),
            };
            EventMetadata::new(
                ERROR_EVENT_NAME.to_owned(),
                None,
                BytePayload::new(bytes),
                Some(event_id),
                EventType::Error,
            )
        },
    }
}

} // verus!
