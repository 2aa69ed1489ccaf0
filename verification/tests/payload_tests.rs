use bromine::error::{Error, IoErrorKind};
use bromine::error_event::{ErrorEventData, END_EVENT_NAME, ERROR_EVENT_NAME};
use bromine::events::payload_serializer::{
    frame_serde_payload, split_serde_payload, DynamicSerializer, SerializationError,
};
use bromine::payload::{split_tandem, BytePayload, EventReceivePayload, EventSendPayload, TandemPayload};

#[test]
fn byte_payload_is_sent_as_is() {
    let p = BytePayload::new(vec![1, 2, 3]);
    assert_eq!(p.clone().into_inner(), vec![1, 2, 3]);
    let bytes = p.to_payload_bytes().unwrap();
    assert_eq!(bytes, vec![1, 2, 3]);
    let back = BytePayload::from_payload_bytes(&bytes).unwrap();
    assert_eq!(back.into_inner(), vec![1, 2, 3]);
}

#[test]
fn tandem_payload_layout() {
    let t = TandemPayload::new(BytePayload::new(vec![7]), BytePayload::new(vec![8, 9]));
    let bytes = t.to_payload_bytes().unwrap();
    assert_eq!(
        bytes,
        vec![0, 0, 0, 0, 0, 0, 0, 1, 7, 0, 0, 0, 0, 0, 0, 0, 2, 8, 9]
    );
    let back = TandemPayload::<BytePayload, BytePayload>::from_payload_bytes(&bytes).unwrap();
    let (a, b) = back.into_inner();
    assert_eq!(a.into_inner(), vec![7]);
    assert_eq!(b.into_inner(), vec![8, 9]);
}

#[test]
fn tandem_of_error_event_and_bytes_roundtrips() {
    let data = ErrorEventData { code: 404, message: String::from("not found") };
    let t = TandemPayload::new(data, BytePayload::new(vec![1, 2]));
    let bytes = t.to_payload_bytes().unwrap();
    let back = TandemPayload::<ErrorEventData, BytePayload>::from_payload_bytes(&bytes).unwrap();
    let (a, b) = back.into_inner();
    assert_eq!(a.code, 404);
    assert_eq!(a.message, "not found");
    assert_eq!(b.into_inner(), vec![1, 2]);
}

#[test]
fn truncated_tandem_is_unexpected_eof() {
    let bytes = vec![0, 0, 0, 0, 0, 0, 0, 5, 1, 2];
    assert!(matches!(
        TandemPayload::<BytePayload, BytePayload>::from_payload_bytes(&bytes),
        Err(Error::IoError(IoErrorKind::UnexpectedEof))
    ));
    assert!(matches!(split_tandem(&[0, 0]), Err(Error::IoError(IoErrorKind::UnexpectedEof))));
    let (a, c) = split_tandem(&[0, 0, 0, 0, 0, 0, 0, 0, 0, 0, 0, 0, 0, 0, 0, 0]).unwrap();
    assert!(a.is_empty() && c.is_empty());
}

#[test]
fn error_event_layout() {
    let data = ErrorEventData { code: 500, message: String::from("oops") };
    let bytes = data.to_payload_bytes().unwrap();
    assert_eq!(bytes, vec![1, 244, 0, 0, 0, 4, b'o', b'o', b'p', b's']);
    let back = ErrorEventData::from_payload_bytes(&bytes).unwrap();
    assert_eq!(back.code, 500);
    assert_eq!(back.message, "oops");
}

#[test]
fn error_event_errors() {
    assert!(matches!(
        ErrorEventData::from_payload_bytes(&[1, 244, 0, 0, 0, 9, b'o']),
        Err(Error::IoError(IoErrorKind::UnexpectedEof))
    ));
    assert!(matches!(
        ErrorEventData::from_payload_bytes(&[1, 244, 0, 0, 0, 1, 0xC0]),
        Err(Error::CorruptedEvent)
    ));
    assert!(matches!(
        ErrorEventData::from_payload_bytes(&[1]),
        Err(Error::IoError(IoErrorKind::UnexpectedEof))
    ));
}

#[test]
fn event_names() {
    assert_eq!(ERROR_EVENT_NAME, "error");
    assert_eq!(END_EVENT_NAME, "end");
}

#[test]
fn serializer_formats() {
    assert_eq!(DynamicSerializer::first_available(), DynamicSerializer::Messagepack);
    assert_eq!(DynamicSerializer::from_primitive(0).unwrap(), DynamicSerializer::Messagepack);
    assert_eq!(DynamicSerializer::from_primitive(1).unwrap(), DynamicSerializer::Bincode);
    assert_eq!(DynamicSerializer::from_primitive(2).unwrap(), DynamicSerializer::Postcard);
    assert_eq!(DynamicSerializer::from_primitive(3).unwrap(), DynamicSerializer::Json);
    assert!(matches!(
        DynamicSerializer::from_primitive(7),
        Err(SerializationError::UnknownFormat(7))
    ));
}

#[test]
fn serde_payload_framing() {
    let framed = frame_serde_payload(DynamicSerializer::Json, b"{}");
    assert_eq!(framed, vec![3, b'{', b'}']);
    let (format, body) = split_serde_payload(&framed).unwrap();
    assert_eq!(format, DynamicSerializer::Json);
    assert_eq!(body, b"{}".to_vec());
    assert_eq!(DynamicSerializer::Postcard.to_primitive(), 2);
    assert!(matches!(
        split_serde_payload(&[9, 1]),
        Err(Error::Serialization(SerializationError::UnknownFormat(9)))
    ));
    assert!(matches!(split_serde_payload(&[]), Err(Error::IoError(IoErrorKind::UnexpectedEof))));
}

#[test]
fn tandem_parts_come_back_in_order() {
    let t = TandemPayload::new(3u32, String::from("b"));
    assert_eq!(t.into_inner(), (3u32, String::from("b")));
}
