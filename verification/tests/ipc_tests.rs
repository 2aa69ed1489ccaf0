use bromine::error::Error;
use bromine::error_event::{ErrorEventData, END_EVENT_NAME, ERROR_EVENT_NAME};
use bromine::event::{Event, EventType};
use bromine::event_handler::{EventHandler, Response};
use bromine::ipc::dispatch::{
    interpret_reply, reply_stream_step, route_event, route_unclaimed_reply, stream_step, Route,
    StreamAction, StreamInput, StreamState, StreamStep,
};
use bromine::ipc::emit::{handler_reply, EventMetadata};
use bromine::ipc::pool::{least_used_index, PoolGuard, PooledContext};
use bromine::ipc::reply_listeners::ReplyListeners;
use bromine::namespace::{Namespace, Namespaces};
use bromine::payload::{BytePayload, EventReceivePayload, EventSendPayload};

fn handlers() -> (EventHandler<u32>, Namespaces<u32>) {
    let mut global = EventHandler::new();
    global.on("ping", 1);
    global.on("pong", 2);
    let mut test_handler = EventHandler::new();
    test_handler.on("ping", 11);
    let mut namespaces = Namespaces::new();
    namespaces.add_namespace(Namespace::new(String::from("test"), test_handler));
    (global, namespaces)
}

fn routed<'a>(r: Route<'a, u32>) -> Option<u32> {
    match r {
        Route::Handle(c) => Some(*c),
        _ => None,
    }
}

#[test]
fn events_go_to_the_callback_of_their_name() {
    let (global, namespaces) = handlers();
    let listeners: ReplyListeners<u8> = ReplyListeners::new();
    let e = Event::initiator(1, None, String::from("pong"), vec![]);
    assert_eq!(routed(route_event(&e, &listeners, &namespaces, &global)), Some(2));
    let e = Event::initiator(1, Some(String::from("test")), String::from("ping"), vec![]);
    assert_eq!(routed(route_event(&e, &listeners, &namespaces, &global)), Some(11));
}

#[test]
fn unhandled_events_are_ignored() {
    let (global, namespaces) = handlers();
    let listeners: ReplyListeners<u8> = ReplyListeners::new();
    let e = Event::initiator(1, None, String::from("unknown"), vec![]);
    assert!(matches!(route_event(&e, &listeners, &namespaces, &global), Route::Ignore));
    let e = Event::initiator(1, Some(String::from("test")), String::from("pong"), vec![]);
    assert!(matches!(route_event(&e, &listeners, &namespaces, &global), Route::Ignore));
    let e = Event::initiator(1, Some(String::from("other")), String::from("ping"), vec![]);
    assert!(matches!(route_event(&e, &listeners, &namespaces, &global), Route::Ignore));
}

#[test]
fn awaited_replies_go_to_their_listener() {
    let (global, namespaces) = handlers();
    let mut listeners: ReplyListeners<u8> = ReplyListeners::new();
    listeners.register(77, 5);
    let e = Event::response(2, None, String::from("pong"), vec![], 77);
    assert!(matches!(route_event(&e, &listeners, &namespaces, &global), Route::Reply(77)));
    // a reply nobody waits for is handled like any other event
    let e = Event::response(3, None, String::from("pong"), vec![], 78);
    assert_eq!(routed(route_event(&e, &listeners, &namespaces, &global)), Some(2));
    // a dangling end event is dropped
    let e = Event::end(4, None, String::from("pong"), vec![], 78);
    assert!(matches!(route_event(&e, &listeners, &namespaces, &global), Route::Ignore));
    let e = Event::end(5, None, String::from("end"), vec![], 77);
    assert!(matches!(route_event(&e, &listeners, &namespaces, &global), Route::Reply(77)));
}

#[test]
fn reply_listeners_register_lookup_remove() {
    let mut listeners: ReplyListeners<&str> = ReplyListeners::new();
    listeners.register(1, "a");
    listeners.register(2, "b");
    assert_eq!(listeners.listener(1), Some(&"a"));
    assert!(listeners.has_listener(2));
    listeners.register(1, "c");
    assert_eq!(listeners.listener(1), Some(&"c"));
    listeners.remove(1);
    assert_eq!(listeners.listener(1), None);
    assert_eq!(listeners.listener(2), Some(&"b"));
}

#[test]
fn error_replies_become_errors() {
    let data = ErrorEventData { code: 500, message: String::from("Test Error") };
    let bytes = data.to_payload_bytes().unwrap();
    let reply = Event::error(9, None, String::from("error"), bytes, 1);
    match interpret_reply(reply) {
        Err(Error::ErrorEvent(d)) => {
            assert_eq!(d.code, 500);
            assert_eq!(d.message, "Test Error");
        }
        other => panic!("unexpected {:?}", other),
    }
    let reply = Event::error(9, None, String::from("error"), vec![1], 1);
    assert!(interpret_reply(reply).is_err());
    let reply = Event::response(9, None, String::from("pong"), vec![], 1);
    assert_eq!(interpret_reply(reply).unwrap().name(), "pong");
}

#[test]
fn reply_streams_end_at_end_events() {
    assert_eq!(stream_step(None), StreamStep::Finished);
    assert_eq!(stream_step(Some(EventType::End)), StreamStep::Last);
    assert_eq!(stream_step(Some(EventType::Response)), StreamStep::More);
    assert_eq!(stream_step(Some(EventType::Error)), StreamStep::More);
}

#[test]
fn handler_success_is_answered_with_an_end_event() {
    let resp = Response::payload(BytePayload::new(vec![4, 2])).unwrap();
    let m = handler_reply(31, Ok(resp));
    let e = m.take_event(1000).unwrap().unwrap();
    assert_eq!(e.id(), 1000);
    assert_eq!(e.name(), END_EVENT_NAME);
    assert_eq!(e.event_type(), EventType::End);
    assert_eq!(e.reference_id(), Some(31));
    assert_eq!(e.namespace(), &None);
    assert_eq!(e.data_raw(), &[4, 2]);
}

#[test]
fn handler_failure_is_answered_with_an_error_event() {
    let m = handler_reply(31, Err(String::from("Message(\"boom\")")));
    let e = m.take_event(1001).unwrap().unwrap();
    assert_eq!(e.name(), ERROR_EVENT_NAME);
    assert_eq!(e.event_type(), EventType::Error);
    assert_eq!(e.reference_id(), Some(31));
    let data: ErrorEventData = e.payload().unwrap();
    assert_eq!(data.code, 500);
    assert_eq!(data.message, "Message(\"boom\")");
}

#[test]
fn events_emitted_while_handling_are_replies() {
    let m = EventMetadata::for_context(Some(12), None, "pong", BytePayload::new(vec![]));
    let e = m.take_event(50).unwrap().unwrap();
    assert_eq!(e.event_type(), EventType::Response);
    assert_eq!(e.reference_id(), Some(12));
    let m = EventMetadata::for_context(None, Some("space"), "ping", BytePayload::new(vec![3]));
    let e = m.take_event(51).unwrap().unwrap();
    assert_eq!(e.event_type(), EventType::Initiator);
    assert_eq!(e.reference_id(), None);
    assert_eq!(e.namespace(), &Some(String::from("space")));
    assert_eq!(e.data_raw(), &[3]);
}

#[test]
fn metadata_builds_the_event_once() {
    let mut m = EventMetadata::emit_response_to(8, "ns", "name", BytePayload::new(vec![1]));
    let first = m.get_event(100).unwrap().id();
    let again = m.get_event(200).unwrap().id();
    assert_eq!(first, 100);
    assert_eq!(again, 100);
    let e = m.take_event(300).unwrap().unwrap();
    assert_eq!(e.id(), 100);
    let m = EventMetadata::emit_to("ns", "name", BytePayload::new(vec![]));
    assert_eq!(m.take_event(5).unwrap().unwrap().event_type(), EventType::Initiator);
    let m = EventMetadata::emit("x", BytePayload::new(vec![]));
    assert_eq!(m.take_event(6).unwrap().unwrap().namespace(), &None);
}

#[test]
fn event_payload_decodes() {
    let e = Event::initiator(1, None, String::from("x"), vec![9, 8]);
    let p: BytePayload = e.payload().unwrap();
    assert_eq!(p.into_inner(), vec![9, 8]);
    let r = Response::empty();
    assert!(r.into_byte_payload().into_inner().is_empty());
    let _ = BytePayload::from_payload_bytes(&[]).unwrap();
}

#[test]
fn least_used_is_chosen_first_on_ties() {
    assert_eq!(least_used_index(&vec![3, 1, 2, 1]), 1);
    assert_eq!(least_used_index(&vec![0]), 0);
    assert_eq!(least_used_index(&vec![5, 4, 4]), 1);
}

#[test]
fn pool_hands_out_least_used() {
    let pool = PooledContext::new(vec![10u32, 20, 30]);
    let a = pool.acquire();
    assert_eq!(*a.inner(), 10);
    assert_eq!(a.count(), 1);
    let b = pool.acquire();
    assert_eq!(*b.inner(), 20);
    let c = pool.acquire();
    assert_eq!(*c.inner(), 30);
    c.release();
    let d = pool.acquire();
    assert_eq!(*d.inner(), 30);
}

#[test]
fn pool_guard_counts_users() {
    let g = PoolGuard::new(String::from("ctx"));
    assert_eq!(g.count(), 0);
    g.acquire();
    assert_eq!(g.count(), 1);
    let h = g.clone();
    assert_eq!(g.count(), 2);
    assert_eq!(h.inner(), "ctx");
    h.release();
    assert_eq!(g.count(), 1);
}

#[test]
fn handler_table_replaces_callbacks() {
    let mut h: EventHandler<u8> = EventHandler::new();
    assert!(h.callback("a").is_none());
    h.on("a", 1);
    h.on("a", 2);
    assert_eq!(h.callback("a"), Some(&2));
    assert!(h.has_callback("a"));
    let ns = Namespace::new(String::from("n"), h);
    assert_eq!(ns.name(), "n");
    assert_eq!(ns.clone().handler().callback("a"), Some(&2));
}

#[test]
fn unclaimed_replies_go_to_the_global_callback() {
    let (global, _namespaces) = handlers();
    let e = Event::response(1, None, String::from("pong"), vec![], 77);
    assert_eq!(routed(route_unclaimed_reply(&e, &global)), Some(2));
    let e = Event::response(1, None, String::from("other"), vec![], 77);
    assert!(matches!(route_unclaimed_reply(&e, &global), Route::Ignore));
}

#[test]
fn reply_streams_step_from_state_to_state() {
    let l = StreamState::Listening;
    let e = StreamState::Ended;
    assert_eq!(reply_stream_step(l, None), (l, StreamAction::Receive));
    assert_eq!(
        reply_stream_step(l, Some(StreamInput::Received(EventType::Response))),
        (l, StreamAction::Yield)
    );
    assert_eq!(
        reply_stream_step(l, Some(StreamInput::Received(EventType::End))),
        (e, StreamAction::YieldLast)
    );
    assert_eq!(reply_stream_step(l, Some(StreamInput::Closed)), (e, StreamAction::Finish));
    assert_eq!(
        reply_stream_step(l, Some(StreamInput::TimedOut)),
        (StreamState::TimedOut, StreamAction::FailTimeout)
    );
    assert_eq!(reply_stream_step(e, None), (e, StreamAction::Stop));
    assert_eq!(
        reply_stream_step(e, Some(StreamInput::Received(EventType::Response))),
        (e, StreamAction::Stop)
    );
}
