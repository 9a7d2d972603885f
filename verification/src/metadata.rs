//! The compact header form: a single metadata byte that packs the protocol
//! version into its high four bits and the command code into its low four.

use vstd::prelude::*;
use vstd::string::StringExecFns;

use crate::big_endian::{spec_u16_of_bytes, spec_u32_of_bytes, u16_from_be, u32_from_be};
use crate::types::Command;

verus! {

/// An error of the compact header form: the low four bits of the metadata
/// byte do not denote a command.
#[derive(Debug, Clone, Copy, PartialEq, Eq, Structural)]
pub enum MetadataError {
    UnknownCommand(u8),
}

impl MetadataError {
    /// The command code that was not recognized.
    pub open spec fn command_byte(self) -> u8 {
        match self {
            MetadataError::UnknownCommand(b) => b,
        }
    }
}

/// The version half of a metadata byte: its high four bits.
pub open spec fn spec_version_of(metadata: u8) -> u8 {
    metadata / 16
}

/// The command half of a metadata byte: its low four bits.
pub open spec fn spec_command_nibble(metadata: u8) -> u8 {
    metadata % 16
}

/// The decimal digit `d` as a character.
pub open spec fn spec_digit_char(d: u8) -> char {
    if d == 0 {
        '0'
    } else if d == 1 {
        '1'
    } else if d == 2 {
        '2'
    } else if d == 3 {
        '3'
    } else if d == 4 {
        '4'
    } else if d == 5 {
        '5'
    } else if d == 6 {
        '6'
    } else if d == 7 {
        '7'
    } else if d == 8 {
        '8'
    } else {
        '9'
    }
}

/// The decimal rendering of a byte, without leading zeros.
pub open spec fn spec_u8_decimal(n: u8) -> Seq<char> {
    if n < 10 {
        seq![spec_digit_char(n)]
    } else if n < 100 {
        seq![spec_digit_char((n / 10) as u8), spec_digit_char((n % 10) as u8)]
    } else {
        seq![
            spec_digit_char((n / 100) as u8),
            spec_digit_char(((n / 10) % 10) as u8),
            spec_digit_char((n % 10) as u8),
        ]
    }
}

/// The text of [`MetadataError::UnknownCommand`]: the words and the decimal
/// value of the unrecognized code.
pub open spec fn spec_unknown_command_message(n: u8) -> Seq<char> {
    "unknown command "@ + spec_u8_decimal(n)
}

/// The decimal digit `d` as a one-character string.
fn digit_str(d: u8) -> (r: &'static str)
    requires
        d < 10,
    ensures
        r@ == seq![spec_digit_char(d)],
{
    proof {
        reveal_strlit("0");
        reveal_strlit("1");
        reveal_strlit("2");
        reveal_strlit("3");
        reveal_strlit("4");
        reveal_strlit("5");
        reveal_strlit("6");
        reveal_strlit("7");
        reveal_strlit("8");
        reveal_strlit("9");
    }
    match d {
        0 => "0",
        1 => "1",
        2 => "2",
        3 => "3",
        4 => "4",
        5 => "5",
        6 => "6",
        7 => "7",
        8 => "8",
        _ => "9",
    }
}

impl MetadataError {
    /// Renders the error as text: the words "unknown command" followed by
    /// the decimal value of the unrecognized code.
    pub fn message(&self) -> (s: String)
        ensures
            s@ == spec_unknown_command_message(self.command_byte()),
    {
        let b = match self {
            MetadataError::UnknownCommand(b) => *b,
        };
        let mut s = String::from_str("unknown command ");
        if b >= 100 {
            s.append(digit_str(b / 100));
            s.append(digit_str((b / 10) % 10));
            s.append(digit_str(b % 10));
        } else if b >= 10 {
            s.append(digit_str(b / 10));
            s.append(digit_str(b % 10));
        } else {
            s.append(digit_str(b));
        }
        proof {
            assert(s@ =~= spec_unknown_command_message(b));
        }
        s
    }
}

/// A decoded compact header, by command: the addressed key and, for the
/// writing commands, the length of the value that follows.  An insert names
/// no key in its header; its key leads the content instead.
#[derive(Debug, Clone, Copy, PartialEq, Eq, Structural)]
pub enum HeaderData {
    Get { id: u32 },
    Put { id: u32, content_length: u16 },
    Insert { content_length: u16 },
    Remove { id: u32 },
}

/// An error of the compact header reader: what the buffer failed to supply.
#[derive(Debug, Clone, Copy, PartialEq, Eq, Structural)]
pub enum CompactHeaderError {
    /// No metadata byte was available.
    MissingMetadata,
    /// The command half of the metadata byte denotes no command.
    BadCommand(u8),
    /// The version half of the metadata byte is not the supported version.
    BadVersion(u8),
    /// The four key bytes the command calls for were not all available.
    MissingKey,
    /// The two length bytes the command calls for were not all available.
    MissingLength,
}

/// The text of each compact header error.
pub open spec fn spec_compact_header_error_message(e: CompactHeaderError) -> Seq<char> {
    match e {
        CompactHeaderError::MissingMetadata => "read metadata failed"@,
        CompactHeaderError::BadCommand(_) => "parse metadata failed"@,
        CompactHeaderError::BadVersion(_) => "wrong version"@,
        CompactHeaderError::MissingKey => "read id failed"@,
        CompactHeaderError::MissingLength => "read content_length failed"@,
    }
}

impl CompactHeaderError {
    /// Renders the error as text.
    pub fn message(&self) -> (s: String)
        ensures
            s@ == spec_compact_header_error_message(*self),
    {
        match self {
            CompactHeaderError::MissingMetadata => String::from_str("read metadata failed"),
            CompactHeaderError::BadCommand(_) => String::from_str("parse metadata failed"),
            CompactHeaderError::BadVersion(_) => String::from_str("wrong version"),
            CompactHeaderError::MissingKey => String::from_str("read id failed"),
            CompactHeaderError::MissingLength => String::from_str("read content_length failed"),
        }
    }
}

/// How a compact header reads from the front of a buffer: the metadata byte
/// first — its command must be known and its version the supported one —
/// then the fields the command calls for: a four-byte big-endian key for
/// get, put and remove, and a two-byte big-endian content length for put and
/// insert.  Bytes past the header are left for the body.
pub open spec fn spec_read_compact_header(bytes: Seq<u8>) -> Result<
    HeaderData,
    CompactHeaderError,
> {
    if bytes.len() < 1 {
        Err(CompactHeaderError::MissingMetadata)
    } else {
        let version = spec_version_of(bytes[0]);
        let nibble = spec_command_nibble(bytes[0]);
        match Command::spec_from_byte(nibble) {
            None => Err(CompactHeaderError::BadCommand(nibble)),
            Some(command) => {
                if version != 1 {
                    Err(CompactHeaderError::BadVersion(version))
                } else {
                    match command {
                        Command::Get => {
                            if bytes.len() < 5 {
                                Err(CompactHeaderError::MissingKey)
                            } else {
                                Ok(
                                    HeaderData::Get {
                                        id: spec_u32_of_bytes(
                                            bytes[1],
                                            bytes[2],
                                            bytes[3],
                                            bytes[4],
                                        ),
                                    },
                                )
                            }
                        },
                        Command::Put => {
                            if bytes.len() < 5 {
                                Err(CompactHeaderError::MissingKey)
                            } else if bytes.len() < 7 {
                                Err(CompactHeaderError::MissingLength)
                            } else {
                                Ok(
                                    HeaderData::Put {
                                        id: spec_u32_of_bytes(
                                            bytes[1],
                                            bytes[2],
                                            bytes[3],
                                            bytes[4],
                                        ),
                                        content_length: spec_u16_of_bytes(bytes[5], bytes[6]),
                                    },
                                )
                            }
                        },
                        Command::Insert => {
                            if bytes.len() < 3 {
                                Err(CompactHeaderError::MissingLength)
                            } else {
                                Ok(
                                    HeaderData::Insert {
                                        content_length: spec_u16_of_bytes(bytes[1], bytes[2]),
                                    },
                                )
                            }
                        },
                        Command::Remove => {
                            if bytes.len() < 5 {
                                Err(CompactHeaderError::MissingKey)
                            } else {
                                Ok(
                                    HeaderData::Remove {
                                        id: spec_u32_of_bytes(
                                            bytes[1],
                                            bytes[2],
                                            bytes[3],
                                            bytes[4],
                                        ),
                                    },
                                )
                            }
                        },
                    }
                }
            },
        }
    }
}

/// Reads a compact header from the front of a buffer, exactly as
/// [`spec_read_compact_header`] describes it.
pub fn read_compact_header(bytes: &Vec<u8>) -> (r: Result<HeaderData, CompactHeaderError>)
    ensures
        r == spec_read_compact_header(bytes@),
{
    if bytes.len() < 1 {
        return Err(CompactHeaderError::MissingMetadata);
    }
    let (version, command) = match extract_metadata(&bytes[0]) {
        Ok(pair) => pair,
        Err(MetadataError::UnknownCommand(b)) => {
            return Err(CompactHeaderError::BadCommand(b));
        },
    };
    if version != 1 {
        return Err(CompactHeaderError::BadVersion(version));
    }
    match command {
        Command::Get => {
            if bytes.len() < 5 {
                Err(CompactHeaderError::MissingKey)
            } else {
                Ok(HeaderData::Get { id: u32_from_be(bytes[1], bytes[2], bytes[3], bytes[4]) })
            }
        },
        Command::Put => {
            if bytes.len() < 5 {
                Err(CompactHeaderError::MissingKey)
            } else if bytes.len() < 7 {
                Err(CompactHeaderError::MissingLength)
            } else {
                Ok(
                    HeaderData::Put {
                        id: u32_from_be(bytes[1], bytes[2], bytes[3], bytes[4]),
                        content_length: u16_from_be(bytes[5], bytes[6]),
                    },
                )
            }
        },
        Command::Insert => {
            if bytes.len() < 3 {
                Err(CompactHeaderError::MissingLength)
            } else {
                Ok(HeaderData::Insert { content_length: u16_from_be(bytes[1], bytes[2]) })
            }
        },
        Command::Remove => {
            if bytes.len() < 5 {
                Err(CompactHeaderError::MissingKey)
            } else {
                Ok(HeaderData::Remove { id: u32_from_be(bytes[1], bytes[2], bytes[3], bytes[4]) })
            }
        },
    }
}

/// Splits a packed metadata byte into its version and its command, reporting
/// the command code whenever it lies outside the closed command set.
pub fn extract_metadata(metadata: &u8) -> (r: Result<(u8, Command), MetadataError>)
    ensures
        match r {
            Ok((version, command)) => {
                &&& version == spec_version_of(*metadata)
                &&& Command::spec_from_byte(spec_command_nibble(*metadata)) == Some(command)
            },
            Err(e) => {
                &&& e == MetadataError::UnknownCommand(spec_command_nibble(*metadata))
                &&& Command::spec_from_byte(spec_command_nibble(*metadata)) is None
            },
        },
{
    let m: u8 = *metadata;
    let version: u8 = m >> 4;
    let nibble: u8 = m & 0x0F;
    proof {
        assert(m >> 4 == m / 16) by (bit_vector);
        assert(m & 0x0F == m % 16) by (bit_vector);
    }
    match Command::from_byte(nibble) {
        Some(command) => Ok((version, command)),
        None => Err(MetadataError::UnknownCommand(nibble)),
    }
}

} // verus!
