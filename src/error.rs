//! Errors surfaced by the stream.

use vstd::prelude::*;

verus! {

/// The class of a stream error.
#[derive(Clone, Copy, Debug, PartialEq, Eq, Structural)]
pub enum ErrorKind {
    /// The source is misconfigured, or a checkpoint cannot be read.
    Configuration,
    /// The connection string, the connection or the replication handshake failed.
    Connection,
    /// A binlog event could not be read or decoded.
    Protocol,
    /// The checkpointer or the filter failed.
    Capability,
    /// A call that the stream's state does not allow.
    State,
}

/// An error of the stream, with a description that includes its cause.
#[derive(Clone, Debug, PartialEq)]
pub struct StreamError {
    pub kind: ErrorKind,
    pub message: String,
}

impl StreamError {
    pub fn new(kind: ErrorKind, message: String) -> (r: StreamError)
        ensures
            r.kind == kind,
            r.message@ == message@,
    {
        StreamError { kind, message }
    }
}

} // verus!
