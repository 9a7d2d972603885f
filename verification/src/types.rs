//! The domain types of the protocol: commands, status codes, request and
//! response frames, and the errors of the decoder and of the repository.

use vstd::prelude::*;

verus! {

/// The four operations a client can request, a closed set.  Each has a
/// stable one-byte wire code; see [`Command::code`].
#[derive(Debug, Clone, Copy, PartialEq, Eq, Structural)]
pub enum Command {
    Get,
    Put,
    Insert,
    Remove,
}

impl Command {
    /// The wire code of this command.
    pub open spec fn spec_code(self) -> u8 {
        match self {
            Command::Get => 0,
            Command::Put => 1,
            Command::Insert => 2,
            Command::Remove => 3,
        }
    }

    /// Returns the wire code of this command.
    pub fn code(&self) -> (r: u8)
        ensures
            r == self.spec_code(),
    {
        match self {
            Command::Get => 0,
            Command::Put => 1,
            Command::Insert => 2,
            Command::Remove => 3,
        }
    }

    /// The command a wire byte denotes, if any.
    pub open spec fn spec_from_byte(b: u8) -> Option<Command> {
        if b == 0 {
            Some(Command::Get)
        } else if b == 1 {
            Some(Command::Put)
        } else if b == 2 {
            Some(Command::Insert)
        } else if b == 3 {
            Some(Command::Remove)
        } else {
            None
        }
    }

    /// Decodes a wire byte into a command; bytes outside the closed set
    /// decode to `None`.
    pub fn from_byte(b: u8) -> (r: Option<Command>)
        ensures
            r == Command::spec_from_byte(b),
    {
        match b {
            0 => Some(Command::Get),
            1 => Some(Command::Put),
            2 => Some(Command::Insert),
            3 => Some(Command::Remove),
            _ => None,
        }
    }
}

/// The closed status-code space of responses.  Every protocol error path and
/// every repository error path maps onto exactly one of these.
#[derive(Debug, Clone, Copy, PartialEq, Eq, Structural)]
pub enum StatusCode {
    Okay,
    InvalidRequest,
    NotFound,
    Conflict,
    WriteBlocked,
    InternalServerError,
    NotImplemented,
}

impl StatusCode {
    /// The numeric wire value of this status code.
    pub open spec fn spec_code(self) -> u16 {
        match self {
            StatusCode::Okay => 200,
            StatusCode::InvalidRequest => 400,
            StatusCode::NotFound => 404,
            StatusCode::Conflict => 409,
            StatusCode::WriteBlocked => 420,
            StatusCode::InternalServerError => 500,
            StatusCode::NotImplemented => 501,
        }
    }

    /// Returns the numeric wire value of this status code.
    pub fn code(&self) -> (r: u16)
        ensures
            r == self.spec_code(),
    {
        match self {
            StatusCode::Okay => 200,
            StatusCode::InvalidRequest => 400,
            StatusCode::NotFound => 404,
            StatusCode::Conflict => 409,
            StatusCode::WriteBlocked => 420,
            StatusCode::InternalServerError => 500,
            StatusCode::NotImplemented => 501,
        }
    }

    /// The status code a numeric wire value denotes, if any.
    pub open spec fn spec_from_code(n: u16) -> Option<StatusCode> {
        if n == 200 {
            Some(StatusCode::Okay)
        } else if n == 400 {
            Some(StatusCode::InvalidRequest)
        } else if n == 404 {
            Some(StatusCode::NotFound)
        } else if n == 409 {
            Some(StatusCode::Conflict)
        } else if n == 420 {
            Some(StatusCode::WriteBlocked)
        } else if n == 500 {
            Some(StatusCode::InternalServerError)
        } else if n == 501 {
            Some(StatusCode::NotImplemented)
        } else {
            None
        }
    }

    /// Decodes a numeric wire value into a status code; values outside the
    /// closed set decode to `None`.
    pub fn from_code(n: u16) -> (r: Option<StatusCode>)
        ensures
            r == StatusCode::spec_from_code(n),
    {
        match n {
            200 => Some(StatusCode::Okay),
            400 => Some(StatusCode::InvalidRequest),
            404 => Some(StatusCode::NotFound),
            409 => Some(StatusCode::Conflict),
            420 => Some(StatusCode::WriteBlocked),
            500 => Some(StatusCode::InternalServerError),
            501 => Some(StatusCode::NotImplemented),
            _ => None,
        }
    }
}

/// An error of the repository, each variant carrying the offending key.
#[derive(Debug, Clone, Copy, PartialEq, Eq, Structural)]
pub enum DatabaseError {
    NotFound(u32),
    AlreadyExists(u32),
    WriteBlocked(u32),
}

/// A fatal framing error: once one occurs, no subsequent byte of the stream
/// can be trusted as a header, so the connection must be closed.
#[derive(Debug, Clone, Copy, PartialEq, Eq, Structural)]
pub enum DecodeError {
    /// The stream ended before the four header bytes arrived.
    HeaderTooShort,
    /// The command byte is not one of the closed command set.
    InvalidCommand,
    /// The stream ended before `content_length` body bytes arrived.
    ContentTooShort,
    /// The version byte is not the one supported protocol version.
    WrongVersion,
    /// A response's status field is not one of the closed status set.
    InvalidStatus,
}

/// A decoded request frame.
#[derive(Debug, Clone, PartialEq, Eq)]
pub struct Request {
    pub version: u8,
    pub command: Command,
    pub content_length: u16,
    pub content: Option<Vec<u8>>,
}

/// The mathematical shape of a request: the body as a sequence of bytes.
pub ghost struct RequestView {
    pub version: u8,
    pub command: Command,
    pub content_length: u16,
    pub content: Option<Seq<u8>>,
}

impl View for Request {
    type V = RequestView;

    open spec fn view(&self) -> RequestView {
        RequestView {
            version: self.version,
            command: self.command,
            content_length: self.content_length,
            content: match self.content {
                Some(c) => Some(c@),
                None => None,
            },
        }
    }
}

impl RequestView {
    /// A request is internally consistent: the body is present exactly when
    /// the declared length is positive, and holds exactly that many bytes.
    pub open spec fn wf(self) -> bool {
        match self.content {
            Some(c) => self.content_length > 0 && c.len() == self.content_length,
            None => self.content_length == 0,
        }
    }
}

/// A decoded response frame.
#[derive(Debug, Clone, PartialEq, Eq)]
pub struct Response {
    pub version: u8,
    pub command: Command,
    pub status_code: StatusCode,
    pub content_length: u16,
    pub content: Option<Vec<u8>>,
}

/// The mathematical shape of a response: the body as a sequence of bytes.
pub ghost struct ResponseView {
    pub version: u8,
    pub command: Command,
    pub status_code: StatusCode,
    pub content_length: u16,
    pub content: Option<Seq<u8>>,
}

impl View for Response {
    type V = ResponseView;

    open spec fn view(&self) -> ResponseView {
        ResponseView {
            version: self.version,
            command: self.command,
            status_code: self.status_code,
            content_length: self.content_length,
            content: match self.content {
                Some(c) => Some(c@),
                None => None,
            },
        }
    }
}

impl ResponseView {
    /// A response is internally consistent: the body is present exactly when
    /// the declared length is positive, and holds exactly that many bytes.
    pub open spec fn wf(self) -> bool {
        match self.content {
            Some(c) => self.content_length > 0 && c.len() == self.content_length,
            None => self.content_length == 0,
        }
    }
}

} // verus!
