//! Tests of the command router: shape validation, repository outcomes, and
//! the closed error-to-status mapping of each command.

use bytestore::repository::Repository;
use bytestore::router::{
    handle_get_request, handle_insert_request, handle_remove_request, handle_set_request,
    insert_error_status, remove_error_status, route_request, set_error_status,
};
use bytestore::types::{Command, DatabaseError, Request, StatusCode};

fn make_request(command: Command, content_length: u16, content: Option<Vec<u8>>) -> Request {
    Request { version: 1, command, content_length, content }
}

fn keyed_content(id: u32, data: &[u8]) -> Vec<u8> {
    let mut content = id.to_be_bytes().to_vec();
    content.extend_from_slice(data);
    content
}

// ---- get ----

#[test]
fn get_invalid_request_when_content_length_not_4() {
    let repo = Repository::new();

    let request = make_request(Command::Get, 3, Some(vec![0, 0, 0]));
    let response = handle_get_request(request, &repo);

    assert_eq!(response.status_code, StatusCode::InvalidRequest);
}

#[test]
fn get_invalid_request_when_content_missing() {
    let repo = Repository::new();

    let request = make_request(Command::Get, 4, None);
    let response = handle_get_request(request, &repo);

    assert_eq!(response.status_code, StatusCode::InvalidRequest);
}

#[test]
fn get_not_found_when_entry_missing() {
    let repo = Repository::new();

    let request = make_request(Command::Get, 4, Some(42u32.to_be_bytes().to_vec()));
    let response = handle_get_request(request, &repo);

    assert_eq!(response.status_code, StatusCode::NotFound);
}

#[test]
fn get_valid_request() {
    let mut repo = Repository::new();
    repo.insert(42, b"hello".to_vec()).unwrap();

    let request = make_request(Command::Get, 4, Some(vec![0, 0, 0, 42]));
    let response = handle_get_request(request, &repo);

    assert_eq!(response.status_code, StatusCode::Okay);
    assert_eq!(response.content_length, 5);
    assert_eq!(response.content, Some(b"hello".to_vec()));
}

// ---- insert ----

#[test]
fn invalid_request_content_length_smaller_5() {
    let mut repo = Repository::new();

    let request = make_request(Command::Insert, 2, Some(vec![0, 0]));
    let response = handle_insert_request(request, &mut repo);

    assert_eq!(StatusCode::InvalidRequest, response.status_code);
}

#[test]
fn invalid_request_content_missing() {
    let mut repo = Repository::new();

    let request = make_request(Command::Insert, 6, None);
    let response = handle_insert_request(request, &mut repo);

    assert_eq!(StatusCode::InvalidRequest, response.status_code);
}

#[test]
fn entry_already_exists() {
    let mut repo = Repository::new();
    repo.insert(42, b"other".to_vec()).unwrap();

    let content = keyed_content(42, b"hello");
    let request = make_request(Command::Insert, content.len() as u16, Some(content));
    let response = handle_insert_request(request, &mut repo);

    assert_eq!(StatusCode::Conflict, response.status_code);
    assert_eq!(repo.get(42), Some(b"other".to_vec()));
}

#[test]
fn insert_unknown_db_error() {
    // Not-found is not an outcome insert expects of the repository; the
    // closed mapping reports it as an internal server error.
    let status = insert_error_status(&DatabaseError::NotFound(42));
    assert_eq!(status, StatusCode::InternalServerError);
    let status = insert_error_status(&DatabaseError::WriteBlocked(42));
    assert_eq!(status, StatusCode::InternalServerError);
}

#[test]
fn insert_valid_request() {
    let mut repo = Repository::new();

    let content = keyed_content(42, b"hello");
    let request = make_request(Command::Insert, content.len() as u16, Some(content));
    let response = handle_insert_request(request, &mut repo);

    assert_eq!(response.status_code, StatusCode::Okay);
    assert_eq!(0, response.content_length);
    assert_eq!(repo.get(42), Some(b"hello".to_vec()));
}

// ---- set ----

#[test]
fn set_invalid_request_when_shape_wrong() {
    let mut repo = Repository::new();

    let request = make_request(Command::Put, 4, Some(vec![0, 0, 0, 42]));
    let response = handle_set_request(request, &mut repo);

    assert_eq!(response.status_code, StatusCode::InvalidRequest);
}

#[test]
fn set_not_found_when_entry_missing() {
    let mut repo = Repository::new();

    let content = keyed_content(42, b"hello");
    let request = make_request(Command::Put, content.len() as u16, Some(content));
    let response = handle_set_request(request, &mut repo);

    assert_eq!(response.status_code, StatusCode::NotFound);
}

#[test]
fn set_write_blocked_when_guard_held() {
    let mut repo = Repository::new();
    repo.insert(42, b"first".to_vec()).unwrap();
    repo.try_write_lock(42).unwrap();

    let content = keyed_content(42, b"second");
    let request = make_request(Command::Put, content.len() as u16, Some(content));
    let response = handle_set_request(request, &mut repo);

    assert_eq!(response.status_code, StatusCode::WriteBlocked);
    assert_eq!(repo.get(42), Some(b"first".to_vec()));
}

#[test]
fn set_valid_request() {
    let mut repo = Repository::new();
    repo.insert(42, b"old".to_vec()).unwrap();

    let content = keyed_content(42, b"new value");
    let request = make_request(Command::Put, content.len() as u16, Some(content));
    let response = handle_set_request(request, &mut repo);

    assert_eq!(response.status_code, StatusCode::Okay);
    assert_eq!(0, response.content_length);
    assert_eq!(repo.get(42), Some(b"new value".to_vec()));
}

#[test]
fn set_unknown_db_error() {
    // Already-exists is not an outcome set expects of the repository; the
    // closed mapping reports it as an internal server error.
    let status = set_error_status(&DatabaseError::AlreadyExists(42));
    assert_eq!(status, StatusCode::InternalServerError);
}

// ---- remove ----

#[test]
fn remove_invalid_request_when_content_length_not_4() {
    let mut repo = Repository::new();

    let request = make_request(Command::Remove, 3, Some(vec![0, 0, 0]));
    let response = handle_remove_request(request, &mut repo);

    assert_eq!(response.status_code, StatusCode::InvalidRequest);
}

#[test]
fn remove_invalid_request_when_content_missing() {
    let mut repo = Repository::new();

    let request = make_request(Command::Remove, 4, None);
    let response = handle_remove_request(request, &mut repo);

    assert_eq!(response.status_code, StatusCode::InvalidRequest);
}

#[test]
fn remove_not_found_when_entry_missing() {
    let mut repo = Repository::new();

    let request = make_request(Command::Remove, 4, Some(42u32.to_be_bytes().to_vec()));
    let response = handle_remove_request(request, &mut repo);

    assert_eq!(response.status_code, StatusCode::NotFound);
}

#[test]
fn remove_unknown_db_error() {
    // Already-exists is not an outcome remove expects of the repository; the
    // closed mapping reports it as an internal server error.
    let status = remove_error_status(&DatabaseError::AlreadyExists(42));
    assert_eq!(status, StatusCode::InternalServerError);
}

#[test]
fn remove_valid_request() {
    let mut repo = Repository::new();
    repo.insert(42, b"hello".to_vec()).unwrap();

    let request = make_request(Command::Remove, 4, Some(42u32.to_be_bytes().to_vec()));
    let response = handle_remove_request(request, &mut repo);

    assert_eq!(response.status_code, StatusCode::Okay);
    assert_eq!(repo.get(42), None);
}

// ---- route ----

#[test]
fn route_dispatches_on_command_and_echoes_it() {
    let mut repo = Repository::new();

    let content = keyed_content(5, b"v");
    let request = make_request(Command::Insert, content.len() as u16, Some(content));
    let response = route_request(request, &mut repo);
    assert_eq!(response.command, Command::Insert);
    assert_eq!(response.version, 1);
    assert_eq!(response.status_code, StatusCode::Okay);

    let request = make_request(Command::Get, 4, Some(5u32.to_be_bytes().to_vec()));
    let response = route_request(request, &mut repo);
    assert_eq!(response.command, Command::Get);
    assert_eq!(response.status_code, StatusCode::Okay);
    assert_eq!(response.content, Some(b"v".to_vec()));

    let request = make_request(Command::Remove, 4, Some(5u32.to_be_bytes().to_vec()));
    let response = route_request(request, &mut repo);
    assert_eq!(response.command, Command::Remove);
    assert_eq!(response.status_code, StatusCode::Okay);
}
