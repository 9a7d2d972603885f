//! The wire-protocol codec: decoding a request header, validating a request
//! body, and serializing a response, together with the symmetric response
//! decoder and the proof that encoding then decoding reproduces a response.
//!
//! The framing is fully length-delimited: a four-byte header announces the
//! exact body length, so a reader can always determine the next byte count to
//! request, and no terminator byte is expected or produced.

use vstd::prelude::*;

use crate::big_endian::{
    lemma_u16_be_round_trip, spec_u16_be, spec_u16_of_bytes, u16_from_be, u16_to_vec,
};
use crate::types::{Command, DecodeError, Response, ResponseView, StatusCode};

verus! {

/// A decoded request header: version, command, and the exact length of the
/// body that follows.
#[derive(Debug, Clone, Copy, PartialEq, Eq, Structural)]
pub struct Header {
    pub version: u8,
    pub command: Command,
    pub content_length: u16,
}

/// The only protocol version this store speaks.
pub const PROTOCOL_VERSION: u8 = 1;

/// How a request header decodes: four bytes are required, and the command
/// byte must denote a command of the closed set.  The version byte is echoed,
/// not validated here.
pub open spec fn spec_decode_header(bytes: Seq<u8>) -> Result<Header, DecodeError> {
    if bytes.len() < 4 {
        Err(DecodeError::HeaderTooShort)
    } else {
        match Command::spec_from_byte(bytes[1]) {
            Some(c) => Ok(
                Header {
                    version: bytes[0],
                    command: c,
                    content_length: spec_u16_of_bytes(bytes[2], bytes[3]),
                },
            ),
            None => Err(DecodeError::InvalidCommand),
        }
    }
}

/// Decodes a request header from the first four bytes of `bytes`.
///
/// Fails with `HeaderTooShort` if fewer than four bytes are available, and
/// with `InvalidCommand` if the command byte is unrecognized.
pub fn decode_header(bytes: &Vec<u8>) -> (r: Result<Header, DecodeError>)
    ensures
        r == spec_decode_header(bytes@),
{
    if bytes.len() < 4 {
        return Err(DecodeError::HeaderTooShort);
    }
    let command = match Command::from_byte(bytes[1]) {
        Some(c) => c,
        None => {
            return Err(DecodeError::InvalidCommand);
        },
    };
    let content_length = u16_from_be(bytes[2], bytes[3]);
    Ok(Header { version: bytes[0], command, content_length })
}

/// The body of an optional content field, as a byte sequence; an absent body
/// is the empty sequence.
pub open spec fn spec_content_seq(content: Option<Seq<u8>>) -> Seq<u8> {
    match content {
        Some(c) => c,
        None => Seq::empty(),
    }
}

/// How a response serializes: version, command code, status code (two
/// big-endian bytes), content length (two big-endian bytes), then the body.
pub open spec fn spec_encode_response(r: ResponseView) -> Seq<u8> {
    seq![r.version, r.command.spec_code()] + spec_u16_be(r.status_code.spec_code()) + spec_u16_be(
        r.content_length,
    ) + spec_content_seq(r.content)
}

/// Serializes a response deterministically.  Encoding never fails for an
/// internally consistent response, and the output length is exactly six
/// bytes of header plus the body.
pub fn encode_response(r: &Response) -> (out: Vec<u8>)
    requires
        r@.wf(),
    ensures
        out@ == spec_encode_response(r@),
        out@.len() == 6 + r@.content_length,
{
    let mut out: Vec<u8> = Vec::new();
    out.push(r.version);
    out.push(r.command.code());
    let mut status = u16_to_vec(&r.status_code.code());
    out.append(&mut status);
    let mut length = u16_to_vec(&r.content_length);
    out.append(&mut length);
    match &r.content {
        Some(content) => {
            let mut i: usize = 0;
            let mut body: Vec<u8> = Vec::new();
            while i < content.len()
                invariant
                    body@ == content@.subrange(0, i as int),
                    i <= content@.len(),
                decreases content@.len() - i,
            {
                body.push(content[i]);
                i = i + 1;
                proof {
                    assert(body@ =~= content@.subrange(0, i as int));
                }
            }
            proof {
                assert(body@ =~= content@);
            }
            out.append(&mut body);
            proof {
                assert(out@ =~= spec_encode_response(r@));
            }
        },
        None => {
            proof {
                assert(out@ =~= spec_encode_response(r@));
            }
        },
    }
    out
}

/// How a response decodes, symmetrically to [`spec_encode_response`]: six
/// header bytes are required, command and status must lie in their closed
/// sets, and the body must hold at least the declared number of bytes.  Bytes
/// beyond the declared length are ignored.
pub open spec fn spec_decode_response(bytes: Seq<u8>) -> Result<ResponseView, DecodeError> {
    if bytes.len() < 6 {
        Err(DecodeError::HeaderTooShort)
    } else {
        match Command::spec_from_byte(bytes[1]) {
            None => Err(DecodeError::InvalidCommand),
            Some(command) => match StatusCode::spec_from_code(
                spec_u16_of_bytes(bytes[2], bytes[3]),
            ) {
                None => Err(DecodeError::InvalidStatus),
                Some(status_code) => {
                    let content_length = spec_u16_of_bytes(bytes[4], bytes[5]);
                    if bytes.len() < 6 + content_length {
                        Err(DecodeError::ContentTooShort)
                    } else {
                        Ok(
                            ResponseView {
                                version: bytes[0],
                                command,
                                status_code,
                                content_length,
                                content: if content_length == 0 {
                                    None
                                } else {
                                    Some(bytes.subrange(6, 6 + content_length as int))
                                },
                            },
                        )
                    }
                },
            },
        }
    }
}

/// Decodes a response frame, the exact inverse of [`encode_response`] on
/// well-formed responses.
pub fn decode_response(bytes: &Vec<u8>) -> (r: Result<Response, DecodeError>)
    ensures
        match r {
            Ok(resp) => spec_decode_response(bytes@) == Ok::<ResponseView, DecodeError>(resp@),
            Err(e) => spec_decode_response(bytes@) == Err::<ResponseView, DecodeError>(e),
        },
{
    if bytes.len() < 6 {
        return Err(DecodeError::HeaderTooShort);
    }
    let command = match Command::from_byte(bytes[1]) {
        Some(c) => c,
        None => {
            return Err(DecodeError::InvalidCommand);
        },
    };
    let status_code = match StatusCode::from_code(u16_from_be(bytes[2], bytes[3])) {
        Some(s) => s,
        None => {
            return Err(DecodeError::InvalidStatus);
        },
    };
    let content_length = u16_from_be(bytes[4], bytes[5]);
    if bytes.len() < 6 + content_length as usize {
        return Err(DecodeError::ContentTooShort);
    }
    let content: Option<Vec<u8>> = if content_length == 0 {
        None
    } else {
        let mut body: Vec<u8> = Vec::new();
        let mut i: usize = 6;
        while i < 6 + content_length as usize
            invariant
                6 <= i <= 6 + content_length as usize,
                6 + content_length as usize <= bytes@.len(),
                body@ == bytes@.subrange(6, i as int),
            decreases 6 + content_length as usize - i,
        {
            body.push(bytes[i]);
            i = i + 1;
            proof {
                assert(body@ =~= bytes@.subrange(6, i as int));
            }
        }
        Some(body)
    };
    let resp = Response { version: bytes[0], command, status_code, content_length, content };
    proof {
        let spec_r = spec_decode_response(bytes@);
        assert(spec_r is Ok);
        assert(resp@.content == spec_r->Ok_0.content);
    }
    Ok(resp)
}

/// Round trip: serializing a well-formed response and then decoding the
/// bytes symmetrically reproduces the response — its version, command,
/// status code, content length, and content.
pub proof fn lemma_response_round_trip(r: ResponseView)
    requires
        r.wf(),
    ensures
        spec_decode_response(spec_encode_response(r)) == Ok::<ResponseView, DecodeError>(r),
{
    let bytes = spec_encode_response(r);
    lemma_u16_be_round_trip(r.status_code.spec_code());
    lemma_u16_be_round_trip(r.content_length);
    assert(bytes.len() == 6 + spec_content_seq(r.content).len());
    assert(bytes[1] == r.command.spec_code());
    assert(Command::spec_from_byte(r.command.spec_code()) == Some(r.command));
    assert(StatusCode::spec_from_code(r.status_code.spec_code()) == Some(r.status_code));
    let decoded = spec_decode_response(bytes);
    assert(decoded is Ok);
    match r.content {
        Some(c) => {
            assert(bytes.subrange(6, 6 + r.content_length as int) =~= c);
        },
        None => {},
    }
    assert(decoded->Ok_0 == r);
}

} // verus!
