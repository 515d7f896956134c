//! The wire protocol the engine's listener speaks: a fixed header and the
//! request vocabulary. Encoding and transport belong to the host program.
use vstd::prelude::*;

verus! {

/// The protocol version this crate speaks.
pub const PROTO_VERSION: u8 = 1;

/// The frame header: protocol version, session identifier, body length.
#[derive(Clone, Copy, Debug)]
pub struct Header {
    pub version: u8,
    pub sid: [u8; 32],
    pub body_len: u16,
}

/// The requests a client may send. No real request is defined yet; the one
/// variant stands for a frame the engine does not understand.
#[derive(Clone, Copy, Debug, PartialEq, Eq, Structural)]
pub enum Request {
    Unsupported,
}

/// What the engine pushes to a connected client: a round of quote snapshots,
/// one per code.
#[derive(Debug)]
pub enum Push {
    Quot(Vec<crate::fetch::Quot>),
}

} // verus!
