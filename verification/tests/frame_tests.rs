//! Tests of serving whole frames: the end-to-end decode, route, encode
//! cycle and its fatal framing errors.

use bytestore::repository::Repository;
use bytestore::router::handle_frame;
use bytestore::types::DecodeError;

#[test]
fn get_against_empty_store_yields_not_found_frame() {
    let mut repo = Repository::new();

    let request = vec![0x01, 0x00, 0x00, 0x04, 0x00, 0x00, 0x00, 0x2A];
    let response = handle_frame(&request, &mut repo).unwrap();

    assert_eq!(response, vec![0x01, 0x00, 0x01, 0x94, 0x00, 0x00]);
}

#[test]
fn insert_then_get_round_trip() {
    let mut repo = Repository::new();

    // insert: key 42, value "hello"
    let mut insert_frame = vec![0x01, 0x02, 0x00, 0x09];
    insert_frame.extend_from_slice(&[0x00, 0x00, 0x00, 0x2A, 0x68, 0x65, 0x6C, 0x6C, 0x6F]);
    let response = handle_frame(&insert_frame, &mut repo).unwrap();
    assert_eq!(response, vec![0x01, 0x02, 0x00, 0xC8, 0x00, 0x00]);

    // get: key 42
    let get_frame = vec![0x01, 0x00, 0x00, 0x04, 0x00, 0x00, 0x00, 0x2A];
    let response = handle_frame(&get_frame, &mut repo).unwrap();
    let mut expected = vec![0x01, 0x00, 0x00, 0xC8, 0x00, 0x05];
    expected.extend_from_slice(b"hello");
    assert_eq!(response, expected);
}

#[test]
fn header_too_short_is_fatal() {
    let mut repo = Repository::new();

    let err = handle_frame(&vec![0x01, 0x00, 0x00], &mut repo).unwrap_err();
    assert_eq!(err, DecodeError::HeaderTooShort);

    let err = handle_frame(&vec![], &mut repo).unwrap_err();
    assert_eq!(err, DecodeError::HeaderTooShort);
}

#[test]
fn invalid_command_is_fatal() {
    let mut repo = Repository::new();

    let err = handle_frame(&vec![0x01, 0x08, 0x00, 0x00], &mut repo).unwrap_err();
    assert_eq!(err, DecodeError::InvalidCommand);
}

#[test]
fn wrong_version_is_fatal() {
    let mut repo = Repository::new();

    let err = handle_frame(&vec![0x03, 0x00, 0x00, 0x04, 0x00, 0x00, 0x00, 0x09], &mut repo)
        .unwrap_err();
    assert_eq!(err, DecodeError::WrongVersion);
}

#[test]
fn content_too_short_is_fatal() {
    let mut repo = Repository::new();

    // declares four body bytes, delivers three
    let err = handle_frame(&vec![0x01, 0x00, 0x00, 0x04, 0x00, 0x00, 0x00], &mut repo)
        .unwrap_err();
    assert_eq!(err, DecodeError::ContentTooShort);
}

#[test]
fn wrong_shape_is_answered_not_fatal() {
    let mut repo = Repository::new();

    // an insert frame whose body is only the key: shape validation fails,
    // the connection-level answer is an invalid-request response
    let request = vec![0x01, 0x02, 0x00, 0x04, 0x00, 0x00, 0x00, 0x2A];
    let response = handle_frame(&request, &mut repo).unwrap();
    assert_eq!(response, vec![0x01, 0x02, 0x01, 0x90, 0x00, 0x00]);
}
