//! The decoded form of one wire message: a correlation id, a discriminator
//! (request or response), and a body of serialized bytes.
//!
//! Method selectors, argument values, success values and service errors are
//! all carried as opaque byte vectors here: turning application values into
//! bytes and back is the caller's concern, not the transport's.

use vstd::prelude::*;

use crate::errors::ServiceError;

verus! {

/// The body of an envelope: a request or a response.
#[derive(Debug, PartialEq, Eq)]
pub enum Body {
    /// A call: an opaque method selector and serialized arguments.
    Request {
        /// The method selector, matched byte-for-byte by the server.
        method: Vec<u8>,
        /// The serialized arguments of the call.
        args: Vec<u8>,
    },
    /// An answer: either a serialized success value or a service-level error.
    Response {
        /// The outcome the handler produced.
        result: Result<Vec<u8>, ServiceError>,
    },
}

/// One decoded wire message.
#[derive(Debug, PartialEq, Eq)]
pub struct Envelope {
    /// The correlation id, unique among in-flight requests on one connection.
    pub id: u64,
    /// The request or response carried under that id.
    pub body: Body,
}

/// The mathematical model of a [`Body`].
pub enum BodyView {
    /// Models [`Body::Request`].
    Request { method: Seq<u8>, args: Seq<u8> },
    /// Models [`Body::Response`]; a service error is modelled by its bytes.
    Response { result: Result<Seq<u8>, Seq<u8>> },
}

/// The mathematical model of an [`Envelope`].
pub struct EnvelopeView {
    pub id: u64,
    pub body: BodyView,
}

/// The request envelope a client sends for a selector, arguments, and id.
pub open spec fn spec_request_envelope(id: u64, method: Seq<u8>, args: Seq<u8>) -> EnvelopeView {
    EnvelopeView { id, body: BodyView::Request { method, args } }
}

/// The response envelope a server sends for a handler outcome; a service
/// error is carried by its serialized bytes.
pub open spec fn spec_response_envelope(id: u64, result: Result<Seq<u8>, Seq<u8>>) -> EnvelopeView {
    EnvelopeView { id, body: BodyView::Response { result } }
}

impl View for Body {
    type V = BodyView;

    open spec fn view(&self) -> BodyView {
        match self {
            Body::Request { method, args } => BodyView::Request {
                method: method@,
                args: args@,
            },
            Body::Response { result } => BodyView::Response {
                result: match result {
                    Ok(value) => Ok(value@),
                    Err(err) => Err(err.detail@),
                },
            },
        }
    }
}

impl View for Envelope {
    type V = EnvelopeView;

    open spec fn view(&self) -> EnvelopeView {
        EnvelopeView { id: self.id, body: self.body@ }
    }
}

impl Envelope {
    /// Builds a request envelope.
    pub fn request(id: u64, method: Vec<u8>, args: Vec<u8>) -> (e: Envelope)
        ensures
            e@ == (EnvelopeView { id, body: BodyView::Request { method: method@, args: args@ } }),
    {
        Envelope { id, body: Body::Request { method, args } }
    }

    /// Builds a response envelope from a handler outcome.
    pub fn response(id: u64, result: Result<Vec<u8>, ServiceError>) -> (e: Envelope)
        ensures
            e@.id == id,
            e@.body == (Body::Response { result }@),
    {
        Envelope { id, body: Body::Response { result } }
    }
}

} // verus!
