use bromine::error::{DecodeFailure, Error, IoErrorKind};
use bromine::ipc::builder::validate_address;
use bromine::error_event::ErrorEventData;

fn version_text(v: Vec<u8>) -> String {
    match Error::unsupported_version_vec(v) {
        Error::UnsupportedVersion(s) => s,
        other => panic!("unexpected {:?}", other),
    }
}

#[test]
fn version_is_written_with_dots() {
    assert_eq!(version_text(vec![0, 9, 0]), "0.9.0");
    assert_eq!(version_text(vec![255, 10, 7]), "255.10.7");
    assert_eq!(version_text(vec![100]), "100");
    assert_eq!(version_text(vec![]), "");
}

#[test]
fn errors_from_failures() {
    assert!(matches!(Error::from_failure(DecodeFailure::Eof), Error::IoError(IoErrorKind::UnexpectedEof)));
    assert!(matches!(Error::from_failure(DecodeFailure::Corrupted), Error::CorruptedEvent));
    match Error::from_failure(DecodeFailure::Version(3, 1, 4)) {
        Error::UnsupportedVersion(s) => assert_eq!(s, "3.1.4"),
        other => panic!("unexpected {:?}", other),
    }
}

#[test]
fn message_errors() {
    assert!(matches!(Error::from(String::from("boom")), Error::Message(m) if m == "boom"));
    assert!(matches!(Error::message("bang"), Error::Message(m) if m == "bang"));
}

#[test]
fn missing_address_is_a_build_error() {
    assert!(validate_address(&Some(5u8)).is_ok());
    match validate_address::<u8>(&None) {
        Err(Error::BuildError(m)) => assert_eq!(m, "Missing Address"),
        other => panic!("unexpected {:?}", other),
    }
}

#[test]
fn error_event_data_is_described() {
    let data = ErrorEventData { code: 500, message: String::from("boom") };
    assert_eq!(data.describe(), "IPC Code 500: 'boom'");
    let data = ErrorEventData { code: 7, message: String::new() };
    assert_eq!(data.describe(), "IPC Code 7: ''");
}

