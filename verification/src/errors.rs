//! The error taxonomy of the transport.
//!
//! Framing and protocol errors are connection-fatal and surface through
//! [`Error`]; an application-level failure travels as data in a response body
//! and surfaces as a [`ServiceError`], leaving the connection healthy.

use vstd::prelude::*;

verus! {

/// A malformed or oversized frame.
#[derive(Clone, Copy, Debug, PartialEq, Eq, Structural)]
pub enum FramingError {
    /// The declared payload length exceeds the configured maximum frame size.
    TooLarge,
    /// The stream ended before the declared payload was fully received.
    Truncated,
}

/// A connection-fatal failure of the transport or of the protocol.
#[derive(Clone, Copy, Debug, PartialEq, Eq, Structural)]
pub enum Error {
    /// A malformed or oversized frame was detected.
    Framing(FramingError),
    /// A payload did not decode to the expected envelope shape: an
    /// unrecoverable protocol desync.
    Serialization,
    /// Connecting, accepting, the handshake, or stream I/O failed.
    Connection,
    /// A response arrived whose id has no matching pending entry and was not
    /// locally cancelled: a protocol violation.
    UnknownRequestId,
}

/// An application-level failure returned intentionally by a handler, carried
/// as serialized bytes in a response body. It is data, not control flow: the
/// connection that delivered it stays usable.
#[derive(Clone, Debug, PartialEq, Eq)]
pub struct ServiceError {
    /// The serialized application error value.
    pub detail: Vec<u8>,
}

impl ServiceError {
    /// Wraps serialized application-error bytes.
    pub fn new(detail: Vec<u8>) -> (e: ServiceError)
        ensures
            e.detail@ == detail@,
    {
        ServiceError { detail }
    }
}

} // verus!
