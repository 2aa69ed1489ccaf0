//! Where a received event goes, how a reply is read, and when a stream of
//! replies ends.

use vstd::prelude::*;
use crate::error::Error;
use crate::events::error_event::{decode_error_event, ErrorEventData};
use crate::events::event::{Event, EventType};
use crate::events::event_handler::EventHandler;
use crate::events::payload::EventReceivePayload;
use crate::ipc::reply_listeners::ReplyListeners;
use crate::namespaces::namespace::{Namespace, Namespaces};

verus! {

/// Where a received event goes.
pub enum Route<'a, C> {
    /// To the listener waiting for replies to the event with this id.
    Reply(u64),
    /// To this callback.
    Handle(&'a C),
    /// Nowhere: the event is dropped.
    Ignore,
}

/// The callbacks that can handle an event in the namespace `ns`: those of the
/// namespace when it is registered, the global ones when the event has no
/// namespace, and none when its namespace is not registered.
pub open spec fn callbacks_for<C>(
    ns: Option<Seq<char>>,
    namespaces: Map<Seq<char>, Namespace<C>>,
    global: Map<Seq<char>, C>,
) -> Option<Map<Seq<char>, C>> {
    match ns {
        Some(n) => if namespaces.contains_key(n) {
            Some(namespaces[n]@.callbacks)
        } else {
            None
        },
        None => Some(global),
    }
}

/// Whether a listener waits for replies to the event this one refers to.
pub open spec fn awaited<S>(event: Event, listeners: Map<u64, S>) -> bool {
    event@.header.ref_id matches Some(r) && listeners.contains_key(r)
}

/// An event goes to a listener exactly when it refers to an event whose
/// replies a listener waits for, whatever its type: errors and end events
/// that answer an awaited event go to the waiting listener too.
pub proof fn lemma_replies_reach_their_listener<S>(event: Event, listeners: Map<u64, S>)
    ensures
        awaited(event, listeners) <==> (event@.header.ref_id is Some && listeners.contains_key(
            event@.header.ref_id.unwrap(),
        )),
{
}

/// Decides where a received event goes. A reply that a listener waits for
/// goes to that listener. Otherwise an end event is dropped, and any other
/// event goes to the callback registered for its name, in its namespace or
/// among the global callbacks when it has none; when its namespace or the
/// callback is not registered, the event is dropped.
pub fn route_event<'a, S, C>(
    event: &Event,
    listeners: &ReplyListeners<S>,
    namespaces: &'a Namespaces<C>,
    global: &'a EventHandler<C>,
) -> (r: Route<'a, C>)
    ensures
        awaited(*event, listeners@) ==> r == Route::<'a, C>::Reply(event@.header.ref_id.unwrap()),
        event@.header.ref_id matches Some(id) ==> (listeners@.contains_key(id) ==> r
            == Route::<'a, C>::Reply(id)),
        r matches Route::Reply(id) ==> event@.header.ref_id == Some(id) && listeners@.contains_key(
            id,
        ),
        !awaited(*event, listeners@) && event@.header.event_type == EventType::End ==> r is Ignore,
        !awaited(*event, listeners@) && event@.header.event_type != EventType::End ==> match
            callbacks_for(event@.header.namespace, namespaces@, global@) {
            None => r is Ignore,
            Some(t) => if t.contains_key(event@.header.name) {
                r matches Route::Handle(c) && *c == t[event@.header.name]
            } else {
                r is Ignore
            },
        },
{
    if let Some(ref_id) = event.reference_id() {
        if listeners.has_listener(ref_id) {
            return Route::Reply(ref_id);
        }
    }
    if event.event_type() == EventType::End {
        return Route::Ignore;
    }
    let handler = match event.namespace() {
        Some(n) => match namespaces.get(n.as_str()) {
            Some(ns) => ns.handler(),
            None => {
                return Route::Ignore;
            },
        },
        None => global,
    };
    match handler.callback(event.name()) {
        Some(c) => Route::Handle(c),
        None => Route::Ignore,
    }
}

/// Where a reply goes when the listener that waited for it has stopped
/// listening: to the global callback registered for its name, or nowhere.
pub fn route_unclaimed_reply<'a, C>(event: &Event, global: &'a EventHandler<C>) -> (r: Route<'a, C>)
    ensures
        global@.contains_key(event@.header.name) ==> (r matches Route::Handle(c) && *c
            == global@[event@.header.name]),
        !global@.contains_key(event@.header.name) ==> r is Ignore,
{
    match global.callback(event.name()) {
        Some(c) => Route::Handle(c),
        None => Route::Ignore,
    }
}

/// Reads a reply: an error event becomes the error it carries (or the error
/// of decoding it), any other event is the reply.
pub fn interpret_reply(reply: Event) -> (r: Result<Event, Error>)
    ensures
        reply@.header.event_type != EventType::Error ==> (r matches Ok(e) && e@ == reply@),
        reply@.header.event_type == EventType::Error ==> match decode_error_event(reply@.data) {
            Ok(v) => r matches Err(Error::ErrorEvent(d)) && d@ == v,
            Err(f) => r matches Err(e) && e.reports(f),
        },
{
    if reply.event_type() == EventType::Error {
        match ErrorEventData::from_payload_bytes(reply.data_raw()) {
            Ok(d) => Err(Error::ErrorEvent(d)),
            Err(e) => Err(e),
        }
    } else {
        Ok(reply)
    }
}

/// What happens to a stream of replies after one receive.
#[derive(Clone, Copy, Debug, PartialEq, Eq, Structural)]
pub enum StreamStep {
    /// The channel closed: the listener is removed and the stream ends
    /// without yielding anything.
    Finished,
    /// An end event arrived: the listener is removed, the event is yielded and
    /// the stream ends after it.
    Last,
    /// Another event arrived: it is yielded and the stream goes on.
    More,
}

/// What a stream of replies does with the result of one receive: `None`
/// when the channel closed, or the type of the event received.
pub fn stream_step(received: Option<EventType>) -> (s: StreamStep)
    ensures
        received is None ==> s == StreamStep::Finished,
        received == Some(EventType::End) ==> s == StreamStep::Last,
        received matches Some(t) && t != EventType::End ==> s == StreamStep::More,
{
    match received {
        None => StreamStep::Finished,
        Some(EventType::End) => StreamStep::Last,
        Some(_) => StreamStep::More,
    }
}

/// The state of a stream of replies.
#[derive(Clone, Copy, Debug, PartialEq, Eq, Structural)]
pub enum StreamState {
    /// Replies are still awaited.
    Listening,
    /// The stream has ended; it yields nothing more.
    Ended,
    /// The stream has yielded a timeout error; it must not be polled again.
    TimedOut,
}

/// What a stream of replies learnt from one wait for a reply.
#[derive(Clone, Copy, Debug, PartialEq, Eq, Structural)]
pub enum StreamInput {
    /// An event of this type arrived.
    Received(EventType),
    /// The channel of replies closed.
    Closed,
    /// No reply arrived in time.
    TimedOut,
}

/// What a stream of replies does next.
#[derive(Clone, Copy, Debug, PartialEq, Eq, Structural)]
pub enum StreamAction {
    /// Wait for the next reply.
    Receive,
    /// Yield the event received; the stream goes on.
    Yield,
    /// Remove the listener and yield the event received; the stream ends
    /// after it.
    YieldLast,
    /// Remove the listener and end without yielding anything.
    Finish,
    /// Yield the timeout error; the stream may not be polled after it.
    FailTimeout,
    /// Yield nothing: the stream has ended.
    Stop,
}

/// One step of a stream of replies: from its state and, when it has waited,
/// what the wait gave (`None` when it is polled without having waited), to
/// its next state and what it does. An ended stream stays ended and yields
/// nothing; a listening stream that is polled waits for a reply; a reply that
/// is not an end event is yielded and the stream goes on; an end event is the
/// last thing yielded; a closed channel ends the stream; a timeout is yielded
/// as an error, after which the stream may not be polled again.
pub fn reply_stream_step(state: StreamState, input: Option<StreamInput>) -> (r: (
    StreamState,
    StreamAction,
))
    requires
        state != StreamState::TimedOut,
    ensures
        state == StreamState::Ended ==> r == (StreamState::Ended, StreamAction::Stop),
        state == StreamState::Listening ==> r == match input {
            None => (StreamState::Listening, StreamAction::Receive),
            Some(StreamInput::Received(t)) => if t == EventType::End {
                (StreamState::Ended, StreamAction::YieldLast)
            } else {
                (StreamState::Listening, StreamAction::Yield)
            },
            Some(StreamInput::Closed) => (StreamState::Ended, StreamAction::Finish),
            Some(StreamInput::TimedOut) => (StreamState::TimedOut, StreamAction::FailTimeout),
        },
{
    match state {
        StreamState::Ended | StreamState::TimedOut => (StreamState::Ended, StreamAction::Stop),
        StreamState::Listening => match input {
            None => (StreamState::Listening, StreamAction::Receive),
            Some(StreamInput::TimedOut) => (StreamState::TimedOut, StreamAction::FailTimeout),
            Some(StreamInput::Closed) => match stream_step(None) {
                StreamStep::Finished => (StreamState::Ended, StreamAction::Finish),
                StreamStep::Last => (StreamState::Ended, StreamAction::YieldLast),
                StreamStep::More => (StreamState::Listening, StreamAction::Yield),
            },
            Some(StreamInput::Received(t)) => match stream_step(Some(t)) {
                StreamStep::Finished => (StreamState::Ended, StreamAction::Finish),
                StreamStep::Last => (StreamState::Ended, StreamAction::YieldLast),
                StreamStep::More => (StreamState::Listening, StreamAction::Yield),
            },
        },
    }
}

} // verus!
