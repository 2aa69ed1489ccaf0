use bromine::error::{Error, IoErrorKind};
use bromine::event::{data_length, Event, EventHeader, EventType, FORMAT_VERSION};
use bromine::events::event_id::{event_id_from_parts, EventIdGenerator};
use std::collections::HashSet;

#[test]
fn event_ids_work() {
    let mut generator = EventIdGenerator::new();
    let mut ids = HashSet::new();

    // simple collision test
    for _ in 0..100000 {
        assert!(ids.insert(generator.next_id().unwrap()))
    }
}

#[test]
fn event_id_layout() {
    // seconds modulo 65535 in the top 16 bits, milliseconds next, counter last
    let id = event_id_from_parts(65536, 999, 7);
    assert_eq!(id, (1u64 << 48) | (999u64 << 32) | 7);
    let mut generator = EventIdGenerator::new();
    assert_eq!(generator.counter(), 0);
    let id = generator.next_id().unwrap();
    assert_eq!(id & 0xFFFF_FFFF, 0);
    assert!((id >> 32) & 0xFFFF < 1000);
    assert_eq!(generator.counter(), 1);
}

fn sample_event() -> Event {
    Event::response(
        0x0102030405060708,
        Some(String::from("ns")),
        String::from("ping"),
        vec![1, 2, 3],
        42,
    )
}

#[test]
fn event_is_written_as_specified() {
    let bytes = sample_event().into_bytes().unwrap();
    let mut header = vec![0u8, 9, 0];
    header.extend_from_slice(&[1, 2, 3, 4, 5, 6, 7, 8]);
    header.push(1); // response
    header.push(0xFF);
    header.extend_from_slice(&42u64.to_be_bytes());
    header.extend_from_slice(&[0, 2, b'n', b's']);
    header.extend_from_slice(&[0, 4, b'p', b'i', b'n', b'g']);
    let mut expected = Vec::new();
    expected.extend_from_slice(&((header.len() + 3) as u64).to_be_bytes());
    expected.extend_from_slice(&(header.len() as u16).to_be_bytes());
    expected.extend_from_slice(&header);
    expected.extend_from_slice(&[1, 2, 3]);
    assert_eq!(bytes, expected);
}

#[test]
fn event_roundtrip() {
    let mut bytes = sample_event().into_bytes().unwrap();
    bytes.extend_from_slice(&[9, 9, 9]); // the start of the next event
    let event = Event::from_bytes(&bytes).unwrap();
    assert_eq!(event.id(), 0x0102030405060708);
    assert_eq!(event.event_type(), EventType::Response);
    assert_eq!(event.reference_id(), Some(42));
    assert_eq!(event.namespace(), &Some(String::from("ns")));
    assert_eq!(event.name(), "ping");
    assert_eq!(event.data_raw(), &[1, 2, 3]);
}

#[test]
fn event_constructors_set_type_and_reference() {
    let e = Event::initiator(1, None, String::from("a"), vec![]);
    assert_eq!(e.event_type(), EventType::Initiator);
    assert_eq!(e.reference_id(), None);
    let e = Event::error(2, None, String::from("error"), vec![], 1);
    assert_eq!(e.event_type(), EventType::Error);
    assert_eq!(e.reference_id(), Some(1));
    let e = Event::end(3, None, String::from("end"), vec![], 1);
    assert_eq!(e.event_type(), EventType::End);
    assert_eq!(e.reference_id(), Some(1));
}

#[test]
fn event_with_unicode_roundtrips() {
    let e = Event::initiator(7, Some(String::from("Wäüörld")), String::from("Hello ſð"), vec![0; 300]);
    let bytes = e.into_bytes().unwrap();
    let back = Event::from_bytes(&bytes).unwrap();
    assert_eq!(back.namespace(), &Some(String::from("Wäüörld")));
    assert_eq!(back.name(), "Hello ſð");
    assert_eq!(back.data_raw().len(), 300);
}

#[test]
fn empty_namespace_reads_as_none() {
    let e = Event::initiator(7, Some(String::new()), String::from("x"), vec![]);
    let back = Event::from_bytes(&e.into_bytes().unwrap()).unwrap();
    assert_eq!(back.namespace(), &None);
}

fn header_of(event: Event) -> Vec<u8> {
    let bytes = event.into_bytes().unwrap();
    let hl = u16::from_be_bytes([bytes[8], bytes[9]]) as usize;
    bytes[10..10 + hl].to_vec()
}

#[test]
fn header_ignores_appended_fields() {
    let mut header = header_of(sample_event());
    header.extend_from_slice(&[0xAB, 0xCD]);
    let back = Event::from_parts(&header, vec![5]).unwrap();
    assert_eq!(back.name(), "ping");
    assert_eq!(back.data_raw(), &[5]);
    assert!(EventHeader::from_read(&header).is_ok());
}

#[test]
fn header_with_other_major_version_is_refused() {
    let mut header = header_of(sample_event());
    header[0] = 1;
    header[1] = 2;
    header[2] = 3;
    match EventHeader::from_read(&header) {
        Err(Error::UnsupportedVersion(v)) => assert_eq!(v, "1.2.3"),
        other => panic!("unexpected {:?}", other),
    }
    // only the first version number has to match
    let mut header = header_of(sample_event());
    header[1] = 200;
    assert!(EventHeader::from_read(&header).is_ok());
    assert_eq!(FORMAT_VERSION, [0, 9, 0]);
}

#[test]
fn header_with_unknown_event_type_is_corrupted() {
    let mut header = header_of(sample_event());
    header[11] = 4;
    assert!(matches!(EventHeader::from_read(&header), Err(Error::CorruptedEvent)));
}

#[test]
fn header_with_bad_reference_marker_is_corrupted() {
    let mut header = header_of(sample_event());
    header[12] = 0x01;
    assert!(matches!(EventHeader::from_read(&header), Err(Error::CorruptedEvent)));
}

#[test]
fn header_with_invalid_utf8_is_corrupted() {
    let e = Event::initiator(1, None, String::from("ab"), vec![]);
    let mut header = header_of(e);
    let last = header.len() - 1;
    header[last] = 0xFF;
    assert!(matches!(EventHeader::from_read(&header), Err(Error::CorruptedEvent)));
}

#[test]
fn truncated_input_is_unexpected_eof() {
    let bytes = sample_event().into_bytes().unwrap();
    for cut in [0usize, 5, 9, 12, 30, bytes.len() - 1] {
        match Event::from_bytes(&bytes[..cut]) {
            Err(Error::IoError(IoErrorKind::UnexpectedEof)) => {}
            other => panic!("cut {}: unexpected {:?}", cut, other),
        }
    }
    assert!(matches!(
        EventHeader::from_read(&[0, 9]),
        Err(Error::IoError(IoErrorKind::UnexpectedEof))
    ));
}

#[test]
fn event_type_numbers() {
    assert_eq!(EventType::Initiator.to_u8(), 0);
    assert_eq!(EventType::Response.to_u8(), 1);
    assert_eq!(EventType::End.to_u8(), 2);
    assert_eq!(EventType::Error.to_u8(), 3);
    assert_eq!(EventType::from_u8(2), Some(EventType::End));
    assert_eq!(EventType::from_u8(4), None);
}

#[test]
fn data_length_subtracts_header() {
    assert_eq!(data_length(100, 40), 60);
    assert_eq!(data_length(40, 40), 0);
}

#[test]
fn header_fields_are_read_one_by_one() {
    assert_eq!(EventHeader::read_version(&[0, 9, 0, 5]).unwrap(), vec![0, 9, 0]);
    assert!(matches!(
        EventHeader::read_version(&[0, 9]),
        Err(Error::IoError(IoErrorKind::UnexpectedEof))
    ));
    match EventHeader::read_version(&[2, 0, 1]) {
        Err(Error::UnsupportedVersion(v)) => assert_eq!(v, "2.0.1"),
        other => panic!("unexpected {:?}", other),
    }

    let bytes = [9, 0x00, 0xFF, 0, 0, 0, 0, 0, 0, 1, 2, 7];
    assert_eq!(EventHeader::read_ref_id(&bytes, 1).unwrap(), (None, 2));
    assert_eq!(EventHeader::read_ref_id(&bytes, 2).unwrap(), (Some(0x102), 11));
    assert!(matches!(EventHeader::read_ref_id(&bytes, 11), Err(Error::CorruptedEvent)));
    assert!(matches!(
        EventHeader::read_ref_id(&bytes, 12),
        Err(Error::IoError(IoErrorKind::UnexpectedEof))
    ));

    let text = [b'x', b'n', b's', 0, 4, b'p', b'i', b'n', b'g'];
    assert_eq!(EventHeader::read_namespace(&text, 1, 0).unwrap(), (None, 1));
    assert_eq!(
        EventHeader::read_namespace(&text, 1, 2).unwrap(),
        (Some(String::from("ns")), 3)
    );
    assert_eq!(EventHeader::read_name(&text, 3).unwrap(), (String::from("ping"), 9));
    assert_eq!(EventHeader::read_string(&text, 5, 4).unwrap(), (String::from("ping"), 9));
    assert!(matches!(
        EventHeader::read_string(&text, 5, 5),
        Err(Error::IoError(IoErrorKind::UnexpectedEof))
    ));
    assert!(matches!(
        EventHeader::read_string(&[0xFF, 0xFE], 0, 2),
        Err(Error::CorruptedEvent)
    ));
}

#[test]
fn ids_are_made_from_the_time_read() {
    let mut generator = EventIdGenerator::new();
    assert_eq!(generator.next_id_at(Some((65536, 999))), Some((1u64 << 48) | (999u64 << 32)));
    assert_eq!(generator.counter(), 1);
    assert_eq!(generator.next_id_at(Some((2, 5))), Some((2u64 << 48) | (5u64 << 32) | 1));
    assert_eq!(generator.counter(), 2);
    assert_eq!(generator.next_id_at(None), None);
    assert_eq!(generator.counter(), 2);
}

#[test]
fn any_header_reads_the_same_with_bytes_appended() {
    // a header from another writer: version 0.3.7, a reference id, no namespace
    let mut header = vec![0, 3, 7, 0, 0, 0, 0, 0, 0, 0, 9, 1, 0xFF, 0, 0, 0, 0, 0, 0, 0, 4, 0, 0, 0, 2, b'h', b'i'];
    let plain = EventHeader::from_read(&header).unwrap();
    header.extend_from_slice(&[1, 2, 3, 4, 5]);
    let extended = Event::from_parts(&header, vec![]).unwrap();
    assert_eq!(extended.id(), 9);
    assert_eq!(extended.event_type(), EventType::Response);
    assert_eq!(extended.reference_id(), Some(4));
    assert_eq!(extended.namespace(), &None);
    assert_eq!(extended.name(), "hi");
    let again = Event::from_parts(&plain.into_bytes(), vec![]).unwrap();
    assert_eq!(again.name(), "hi");
    assert_eq!(again.reference_id(), Some(4));
}
