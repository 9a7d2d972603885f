//! The command router: maps a decoded request to the repository operation it
//! implies and builds the response, enforcing each command's shape rule and
//! the closed mapping from repository errors to status codes.
//!
//! Shape validation checks that a request's declared length and body match
//! what its command requires, independent of whether the referenced key
//! exists.  Get and remove carry exactly a four-byte big-endian key; put and
//! insert carry the key plus at least one byte of value.  Every repository
//! error has exactly one designated status code, and an error outside a
//! command's expected set is reported as an internal server error rather
//! than dropped.

use vstd::prelude::*;

use crate::big_endian::{spec_u32_of_bytes, u32_from_be};
use crate::codec::{
    decode_header, encode_response, spec_decode_header, spec_encode_response, Header,
    PROTOCOL_VERSION,
};
use crate::repository::Repository;
use crate::types::{
    Command, DatabaseError, DecodeError, Request, RequestView, Response, ResponseView, StatusCode,
};

verus! {

/// The body of a request, as a byte sequence; an absent body is empty.
pub open spec fn spec_body(req: RequestView) -> Seq<u8> {
    match req.content {
        Some(c) => c,
        None => Seq::empty(),
    }
}

/// The shape rule of get and remove: the body is present and is exactly a
/// four-byte key.
pub open spec fn key_shape_ok(req: RequestView) -> bool {
    &&& req.content_length == 4
    &&& req.content is Some
    &&& spec_body(req).len() == 4
}

/// The shape rule of put and insert: the body is present, matches the
/// declared length, and holds the four-byte key plus at least one value byte.
pub open spec fn value_shape_ok(req: RequestView) -> bool {
    &&& req.content_length > 4
    &&& req.content is Some
    &&& spec_body(req).len() == req.content_length
}

/// The key a request's body addresses: its first four bytes, big-endian.
pub open spec fn spec_req_key(req: RequestView) -> u32 {
    let b = spec_body(req);
    spec_u32_of_bytes(b[0], b[1], b[2], b[3])
}

/// The value bytes a put or insert request carries: everything after the
/// four-byte key.
pub open spec fn spec_req_value(req: RequestView) -> Seq<u8> {
    spec_body(req).skip(4)
}

/// A response that echoes the request's version and command and carries no
/// body.
pub open spec fn spec_plain_response(req: RequestView, status: StatusCode) -> ResponseView {
    ResponseView {
        version: req.version,
        command: req.command,
        status_code: status,
        content_length: 0,
        content: None,
    }
}

/// The response to a get request: the stored value under the addressed key,
/// `NotFound` if the key does not exist, `InvalidRequest` if the shape rule
/// fails.  The store never changes.
pub open spec fn spec_get_response(req: RequestView, store: Map<u32, Seq<u8>>) -> ResponseView {
    if !key_shape_ok(req) {
        spec_plain_response(req, StatusCode::InvalidRequest)
    } else {
        let id = spec_req_key(req);
        if store.contains_key(id) {
            ResponseView {
                version: req.version,
                command: req.command,
                status_code: StatusCode::Okay,
                content_length: store[id].len() as u16,
                content: if store[id].len() == 0 {
                    None
                } else {
                    Some(store[id])
                },
            }
        } else {
            spec_plain_response(req, StatusCode::NotFound)
        }
    }
}

/// The closed mapping from a repository error of insert to a status code:
/// `AlreadyExists` is the one expected conflict; anything else would be a
/// defect and surfaces as an internal server error.
pub open spec fn spec_insert_error_status(e: DatabaseError) -> StatusCode {
    match e {
        DatabaseError::AlreadyExists(_) => StatusCode::Conflict,
        _ => StatusCode::InternalServerError,
    }
}

/// The closed mapping from a repository error of put to a status code:
/// `NotFound` and `WriteBlocked` are the expected outcomes; anything else
/// surfaces as an internal server error.
pub open spec fn spec_set_error_status(e: DatabaseError) -> StatusCode {
    match e {
        DatabaseError::NotFound(_) => StatusCode::NotFound,
        DatabaseError::WriteBlocked(_) => StatusCode::WriteBlocked,
        _ => StatusCode::InternalServerError,
    }
}

/// The closed mapping from a repository error of remove to a status code:
/// `NotFound` is the one expected outcome; anything else surfaces as an
/// internal server error.
pub open spec fn spec_remove_error_status(e: DatabaseError) -> StatusCode {
    match e {
        DatabaseError::NotFound(_) => StatusCode::NotFound,
        _ => StatusCode::InternalServerError,
    }
}

/// The outcome of an insert request: the response and the store afterwards.
pub open spec fn spec_insert_outcome(req: RequestView, store: Map<u32, Seq<u8>>) -> (
    ResponseView,
    Map<u32, Seq<u8>>,
) {
    if !value_shape_ok(req) {
        (spec_plain_response(req, StatusCode::InvalidRequest), store)
    } else {
        let id = spec_req_key(req);
        if store.contains_key(id) {
            (spec_plain_response(req, StatusCode::Conflict), store)
        } else {
            (spec_plain_response(req, StatusCode::Okay), store.insert(id, spec_req_value(req)))
        }
    }
}

/// The outcome of a put request: the response and the store afterwards.  A
/// held write guard on the addressed key blocks the write.
pub open spec fn spec_set_outcome(
    req: RequestView,
    store: Map<u32, Seq<u8>>,
    locked: Set<u32>,
) -> (ResponseView, Map<u32, Seq<u8>>) {
    if !value_shape_ok(req) {
        (spec_plain_response(req, StatusCode::InvalidRequest), store)
    } else {
        let id = spec_req_key(req);
        if !store.contains_key(id) {
            (spec_plain_response(req, StatusCode::NotFound), store)
        } else if locked.contains(id) {
            (spec_plain_response(req, StatusCode::WriteBlocked), store)
        } else {
            (spec_plain_response(req, StatusCode::Okay), store.insert(id, spec_req_value(req)))
        }
    }
}

/// The outcome of a remove request: the response and the store afterwards.
pub open spec fn spec_remove_outcome(req: RequestView, store: Map<u32, Seq<u8>>) -> (
    ResponseView,
    Map<u32, Seq<u8>>,
) {
    if !key_shape_ok(req) {
        (spec_plain_response(req, StatusCode::InvalidRequest), store)
    } else {
        let id = spec_req_key(req);
        if store.contains_key(id) {
            (spec_plain_response(req, StatusCode::Okay), store.remove(id))
        } else {
            (spec_plain_response(req, StatusCode::NotFound), store)
        }
    }
}

/// The outcome of any request, dispatched purely on its command.
pub open spec fn spec_route(req: RequestView, store: Map<u32, Seq<u8>>, locked: Set<u32>) -> (
    ResponseView,
    Map<u32, Seq<u8>>,
) {
    match req.command {
        Command::Get => (spec_get_response(req, store), store),
        Command::Put => spec_set_outcome(req, store, locked),
        Command::Insert => spec_insert_outcome(req, store),
        Command::Remove => spec_remove_outcome(req, store),
    }
}

/// For every request, the routed response echoes the request's version and
/// command, and its status code is drawn only from the closed set documented
/// for that command: get answers ok, invalid-request or not-found; put
/// answers ok, invalid-request, not-found or write-blocked; insert answers
/// ok, invalid-request or conflict; remove answers ok, invalid-request or
/// not-found.
pub proof fn lemma_route_response_space(
    req: RequestView,
    store: Map<u32, Seq<u8>>,
    locked: Set<u32>,
)
    ensures
        ({
            let (resp, new_store) = spec_route(req, store, locked);
            &&& resp.version == req.version
            &&& resp.command == req.command
            &&& match req.command {
                Command::Get => resp.status_code == StatusCode::Okay || resp.status_code
                    == StatusCode::InvalidRequest || resp.status_code == StatusCode::NotFound,
                Command::Put => resp.status_code == StatusCode::Okay || resp.status_code
                    == StatusCode::InvalidRequest || resp.status_code == StatusCode::NotFound
                    || resp.status_code == StatusCode::WriteBlocked,
                Command::Insert => resp.status_code == StatusCode::Okay || resp.status_code
                    == StatusCode::InvalidRequest || resp.status_code == StatusCode::Conflict,
                Command::Remove => resp.status_code == StatusCode::Okay || resp.status_code
                    == StatusCode::InvalidRequest || resp.status_code == StatusCode::NotFound,
            }
        }),
{
}

/// Builds a response that echoes `version` and `command` and carries no body.
fn plain_response(version: u8, command: Command, status: StatusCode) -> (r: Response)
    ensures
        r@ == (ResponseView {
            version,
            command,
            status_code: status,
            content_length: 0,
            content: None,
        }),
        r@.wf(),
{
    Response { version, command, status_code: status, content_length: 0, content: None }
}

/// Maps a repository error of insert to its status code.
pub fn insert_error_status(e: &DatabaseError) -> (s: StatusCode)
    ensures
        s == spec_insert_error_status(*e),
{
    match e {
        DatabaseError::AlreadyExists(_) => StatusCode::Conflict,
        _ => StatusCode::InternalServerError,
    }
}

/// Maps a repository error of put to its status code.
pub fn set_error_status(e: &DatabaseError) -> (s: StatusCode)
    ensures
        s == spec_set_error_status(*e),
{
    match e {
        DatabaseError::NotFound(_) => StatusCode::NotFound,
        DatabaseError::WriteBlocked(_) => StatusCode::WriteBlocked,
        _ => StatusCode::InternalServerError,
    }
}

/// Maps a repository error of remove to its status code.
pub fn remove_error_status(e: &DatabaseError) -> (s: StatusCode)
    ensures
        s == spec_remove_error_status(*e),
{
    match e {
        DatabaseError::NotFound(_) => StatusCode::NotFound,
        _ => StatusCode::InternalServerError,
    }
}

/// Answers a get request: the four-byte key must be present and exact, and
/// the response carries a snapshot of the stored value, `NotFound`, or
/// `InvalidRequest`.
pub fn handle_get_request(req: Request, repo: &Repository) -> (r: Response)
    requires
        repo.wf(),
    ensures
        r@ == spec_get_response(req@, repo@),
        r@.wf(),
{
    let version = req.version;
    let command = req.command;
    if req.content_length != 4 {
        return plain_response(version, command, StatusCode::InvalidRequest);
    }
    let content = match req.content {
        Some(c) => c,
        None => {
            return plain_response(version, command, StatusCode::InvalidRequest);
        },
    };
    if content.len() != 4 {
        return plain_response(version, command, StatusCode::InvalidRequest);
    }
    let id = u32_from_be(content[0], content[1], content[2], content[3]);
    match repo.get(id) {
        Some(value) => {
            if value.len() == 0 {
                Response {
                    version,
                    command,
                    status_code: StatusCode::Okay,
                    content_length: 0,
                    content: None,
                }
            } else {
                Response {
                    version,
                    command,
                    status_code: StatusCode::Okay,
                    content_length: value.len() as u16,
                    content: Some(value),
                }
            }
        },
        None => plain_response(version, command, StatusCode::NotFound),
    }
}

/// Copies the value bytes of a request body: everything after the four-byte
/// key.
fn split_value(content: &Vec<u8>) -> (r: Vec<u8>)
    requires
        content@.len() >= 4,
    ensures
        r@ == content@.skip(4),
{
    let mut value: Vec<u8> = Vec::new();
    let mut i: usize = 4;
    while i < content.len()
        invariant
            4 <= i <= content@.len(),
            value@ == content@.subrange(4, i as int),
        decreases content@.len() - i,
    {
        value.push(content[i]);
        i = i + 1;
        proof {
            assert(value@ =~= content@.subrange(4, i as int));
        }
    }
    proof {
        assert(value@ =~= content@.skip(4));
    }
    value
}

/// Answers an insert request: creates the addressed key with the carried
/// value, answering `Conflict` if it already exists and `InvalidRequest` if
/// the shape rule fails.
pub fn handle_insert_request(req: Request, repo: &mut Repository) -> (r: Response)
    requires
        old(repo).wf(),
    ensures
        final(repo).wf(),
        final(repo).write_locked() == old(repo).write_locked(),
        ({
            let (resp, new_store) = spec_insert_outcome(req@, old(repo)@);
            r@ == resp && final(repo)@ == new_store
        }),
        r@.wf(),
{
    let version = req.version;
    let command = req.command;
    if req.content_length <= 4 {
        return plain_response(version, command, StatusCode::InvalidRequest);
    }
    let content = match req.content {
        Some(c) => c,
        None => {
            return plain_response(version, command, StatusCode::InvalidRequest);
        },
    };
    if content.len() != req.content_length as usize {
        return plain_response(version, command, StatusCode::InvalidRequest);
    }
    let id = u32_from_be(content[0], content[1], content[2], content[3]);
    let value = split_value(&content);
    match repo.insert(id, value) {
        Ok(()) => plain_response(version, command, StatusCode::Okay),
        Err(e) => plain_response(version, command, insert_error_status(&e)),
    }
}

/// Answers a put request: replaces the value of the addressed existing key,
/// answering `NotFound` if the key does not exist, `WriteBlocked` if its
/// write guard is held, and `InvalidRequest` if the shape rule fails.
pub fn handle_set_request(req: Request, repo: &mut Repository) -> (r: Response)
    requires
        old(repo).wf(),
    ensures
        final(repo).wf(),
        final(repo).write_locked() == old(repo).write_locked(),
        ({
            let (resp, new_store) = spec_set_outcome(
                req@,
                old(repo)@,
                old(repo).write_locked(),
            );
            r@ == resp && final(repo)@ == new_store
        }),
        r@.wf(),
{
    let version = req.version;
    let command = req.command;
    if req.content_length <= 4 {
        return plain_response(version, command, StatusCode::InvalidRequest);
    }
    let content = match req.content {
        Some(c) => c,
        None => {
            return plain_response(version, command, StatusCode::InvalidRequest);
        },
    };
    if content.len() != req.content_length as usize {
        return plain_response(version, command, StatusCode::InvalidRequest);
    }
    let id = u32_from_be(content[0], content[1], content[2], content[3]);
    let value = split_value(&content);
    match repo.set(id, value) {
        Ok(()) => plain_response(version, command, StatusCode::Okay),
        Err(e) => plain_response(version, command, set_error_status(&e)),
    }
}

/// Answers a remove request: deletes the addressed key and its guard,
/// answering `NotFound` if the key does not exist and `InvalidRequest` if
/// the shape rule fails.
pub fn handle_remove_request(req: Request, repo: &mut Repository) -> (r: Response)
    requires
        old(repo).wf(),
    ensures
        final(repo).wf(),
        final(repo).write_locked() == (if key_shape_ok(req@) && old(repo)@.contains_key(
            spec_req_key(req@),
        ) {
            old(repo).write_locked().remove(spec_req_key(req@))
        } else {
            old(repo).write_locked()
        }),
        ({
            let (resp, new_store) = spec_remove_outcome(req@, old(repo)@);
            r@ == resp && final(repo)@ == new_store
        }),
        r@.wf(),
{
    let version = req.version;
    let command = req.command;
    if req.content_length != 4 {
        return plain_response(version, command, StatusCode::InvalidRequest);
    }
    let content = match req.content {
        Some(c) => c,
        None => {
            return plain_response(version, command, StatusCode::InvalidRequest);
        },
    };
    if content.len() != 4 {
        return plain_response(version, command, StatusCode::InvalidRequest);
    }
    let id = u32_from_be(content[0], content[1], content[2], content[3]);
    proof {
        old(repo).lemma_write_locked_in_store();
    }
    match repo.remove(id) {
        Ok(()) => plain_response(version, command, StatusCode::Okay),
        Err(e) => {
            proof {
                assert(repo.write_locked() =~= old(repo).write_locked());
            }
            plain_response(version, command, remove_error_status(&e))
        },
    }
}

/// Routes a request to its handler, dispatching purely on the command.  The
/// response is exactly the one [`spec_route`] describes, and the store
/// afterwards is exactly the routed outcome's store.
pub fn route_request(req: Request, repo: &mut Repository) -> (r: Response)
    requires
        old(repo).wf(),
    ensures
        final(repo).wf(),
        final(repo).write_locked() == (if req@.command == Command::Remove && key_shape_ok(req@)
            && old(repo)@.contains_key(spec_req_key(req@)) {
            old(repo).write_locked().remove(spec_req_key(req@))
        } else {
            old(repo).write_locked()
        }),
        ({
            let (resp, new_store) = spec_route(req@, old(repo)@, old(repo).write_locked());
            r@ == resp && final(repo)@ == new_store
        }),
        r@.wf(),
{
    match req.command {
        Command::Get => handle_get_request(req, repo),
        Command::Put => handle_set_request(req, repo),
        Command::Insert => handle_insert_request(req, repo),
        Command::Remove => handle_remove_request(req, repo),
    }
}

/// How one whole frame is served, as [`handle_frame`] does it: decode the
/// header from the first four bytes, reject a version other than the
/// supported one, take exactly `content_length` body bytes, route, and
/// serialize the response.  Bytes beyond the frame are ignored.
pub open spec fn spec_handle_frame(
    bytes: Seq<u8>,
    store: Map<u32, Seq<u8>>,
    locked: Set<u32>,
) -> (Result<Seq<u8>, DecodeError>, Map<u32, Seq<u8>>) {
    match spec_decode_header(bytes) {
        Err(e) => (Err(e), store),
        Ok(h) => {
            if h.version != PROTOCOL_VERSION {
                (Err(DecodeError::WrongVersion), store)
            } else if bytes.len() < 4 + h.content_length {
                (Err(DecodeError::ContentTooShort), store)
            } else {
                let req = RequestView {
                    version: h.version,
                    command: h.command,
                    content_length: h.content_length,
                    content: if h.content_length == 0 {
                        None
                    } else {
                        Some(bytes.subrange(4, 4 + h.content_length as int))
                    },
                };
                let (resp, new_store) = spec_route(req, store, locked);
                (Ok(spec_encode_response(resp)), new_store)
            }
        },
    }
}

/// Serves one whole request frame against the store: decodes and validates
/// it, routes it, and returns the serialized response.  A framing error is
/// fatal — no response bytes are produced for it, and the store is left
/// unchanged.
pub fn handle_frame(bytes: &Vec<u8>, repo: &mut Repository) -> (r: Result<Vec<u8>, DecodeError>)
    requires
        old(repo).wf(),
    ensures
        final(repo).wf(),
        ({
            let (res, new_store) = spec_handle_frame(
                bytes@,
                old(repo)@,
                old(repo).write_locked(),
            );
            final(repo)@ == new_store && match (r, res) {
                (Ok(v), Ok(s)) => v@ == s,
                (Err(e1), Err(e2)) => e1 == e2,
                _ => false,
            }
        }),
{
    let header = match decode_header(bytes) {
        Ok(h) => h,
        Err(e) => {
            return Err(e);
        },
    };
    if header.version != PROTOCOL_VERSION {
        return Err(DecodeError::WrongVersion);
    }
    let content_length = header.content_length as usize;
    if bytes.len() < 4 + content_length {
        return Err(DecodeError::ContentTooShort);
    }
    let content: Option<Vec<u8>> = if content_length == 0 {
        None
    } else {
        let mut body: Vec<u8> = Vec::new();
        let mut i: usize = 4;
        while i < 4 + content_length
            invariant
                content_length <= 65535,
                4 <= i <= 4 + content_length,
                4 + content_length <= bytes@.len(),
                body@ == bytes@.subrange(4, i as int),
            decreases 4 + content_length - i,
        {
            body.push(bytes[i]);
            i = i + 1;
            proof {
                assert(body@ =~= bytes@.subrange(4, i as int));
            }
        }
        Some(body)
    };
    let req = Request {
        version: header.version,
        command: header.command,
        content_length: header.content_length,
        content,
    };
    let resp = route_request(req, repo);
    let out = encode_response(&resp);
    Ok(out)
}

} // verus!
