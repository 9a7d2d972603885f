//! A keyed byte-store with a fixed-format binary wire protocol.
//!
//! Clients send framed binary requests (get / set / insert / remove against a
//! 32-bit key) and receive framed binary responses.  This crate holds the
//! verified core: the wire-protocol codec, the repository that owns the keyed
//! data together with its per-entry write guards, and the router that maps a
//! decoded request to a repository operation and a response.  Transport I/O
//! (accepting connections, reading and writing the byte stream) lives outside
//! the library and hands it plain byte vectors.

pub mod big_endian;
pub mod codec;
pub mod metadata;
pub mod repository;
pub mod router;
pub mod types;
