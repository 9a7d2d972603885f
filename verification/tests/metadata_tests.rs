//! Tests of the compact packed-metadata header form.

use bytestore::metadata::{extract_metadata, MetadataError};
use bytestore::types::Command;

#[test]
fn extract_metadata_get() {
    let metadata = 0b0001_0000;
    let (version, command) = extract_metadata(&metadata).unwrap();
    assert_eq!(version, 1);
    assert_eq!(command, Command::Get);
}

#[test]
fn extract_metadata_set() {
    let metadata = 0b0001_0001;
    let (version, command) = extract_metadata(&metadata).unwrap();
    assert_eq!(version, 1);
    assert_eq!(command, Command::Put);
}

#[test]
fn extract_metadata_insert() {
    let metadata = 0b0001_0010;
    let (version, command) = extract_metadata(&metadata).unwrap();
    assert_eq!(version, 1);
    assert_eq!(command, Command::Insert);
}

#[test]
fn extract_metadata_remove() {
    let metadata = 0b0001_0011;
    let (version, command) = extract_metadata(&metadata).unwrap();
    assert_eq!(version, 1);
    assert_eq!(command, Command::Remove);
}

#[test]
fn extract_metadata_unknown_command() {
    let metadata = 0b0001_1111;
    let res = extract_metadata(&metadata);
    assert!(res.is_err());
    assert_eq!(res.err().unwrap().message(), "unknown command 15");
}

#[test]
fn extract_metadata_version_nibble() {
    let metadata = 0b0111_0010;
    let (version, command) = extract_metadata(&metadata).unwrap();
    assert_eq!(version, 7);
    assert_eq!(command, Command::Insert);
}

#[test]
fn unknown_command_message_one_digit() {
    let err = MetadataError::UnknownCommand(4);
    assert_eq!(err.message(), "unknown command 4");
}

#[test]
fn unknown_command_message_three_digits() {
    let err = MetadataError::UnknownCommand(255);
    assert_eq!(err.message(), "unknown command 255");
}
