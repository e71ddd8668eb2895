//! The server side of one accepted connection: judges every payload the
//! transport delivers and encodes handler outcomes as response frames.
//!
//! The loop around this module is the caller's: await a frame, hand its
//! payload to [`ServerConn::on_payload`], run the handler an `Invoke` action
//! names, encode the outcome with [`ServerConn::encode_reply`] under the
//! originating id, and write it back. Requests may be handled concurrently;
//! correctness needs only that each reply carries the id of its request.

use vstd::prelude::*;

use crate::codec::{encode_frame, decode_envelope, spec_encode_envelope, spec_encode_frame,
    spec_decode_envelope, Config};
use crate::envelope::{spec_response_envelope, Body, BodyView, Envelope};
use crate::errors::{Error, FramingError, ServiceError};

verus! {

/// What the caller must do after one delivered payload.
pub enum ServerAction {
    /// Dispatch the named method on the decoded arguments, then reply under
    /// the same id.
    Invoke {
        /// The correlation id the reply must carry.
        id: u64,
        /// The method selector to look up.
        method: Vec<u8>,
        /// The serialized arguments of the call.
        args: Vec<u8>,
    },
    /// The connection must close.
    Close {
        /// The connection-fatal error detected.
        err: Error,
    },
}

/// The mathematical model of a [`ServerAction`].
pub enum ServerActionView {
    Invoke { id: u64, method: Seq<u8>, args: Seq<u8> },
    Close { err: Error },
}

impl View for ServerAction {
    type V = ServerActionView;

    open spec fn view(&self) -> ServerActionView {
        match self {
            ServerAction::Invoke { id, method, args } => ServerActionView::Invoke {
                id: *id,
                method: method@,
                args: args@,
            },
            ServerAction::Close { err } => ServerActionView::Close { err: *err },
        }
    }
}

/// The mathematical model of a server connection.
pub struct ServerView {
    pub open: bool,
    pub max_frame_len: u32,
}

/// How one delivered payload moves a server connection: a request is
/// dispatched; anything else is a protocol desync that closes it.
pub open spec fn spec_server_on_payload(s: ServerView, payload: Seq<u8>) -> (ServerView,
    ServerActionView) {
    match spec_decode_envelope(payload) {
        None => (
            ServerView { open: false, max_frame_len: s.max_frame_len },
            ServerActionView::Close { err: Error::Serialization },
        ),
        Some(e) => match e.body {
            BodyView::Request { method, args } => (
                s,
                ServerActionView::Invoke { id: e.id, method, args },
            ),
            BodyView::Response { .. } => (
                ServerView { open: false, max_frame_len: s.max_frame_len },
                ServerActionView::Close { err: Error::Serialization },
            ),
        },
    }
}

/// The server side of one accepted connection.
pub struct ServerConn {
    open: bool,
    config: Config,
}

impl View for ServerConn {
    type V = ServerView;

    closed spec fn view(&self) -> ServerView {
        ServerView { open: self.open, max_frame_len: self.config.max_frame_len }
    }
}

impl ServerConn {
    /// A fresh connection, just accepted.
    pub fn new(config: Config) -> (s: ServerConn)
        ensures
            s@ == (ServerView { open: true, max_frame_len: config.max_frame_len }),
    {
        ServerConn { open: true, config }
    }

    /// Whether the connection is still usable.
    pub fn is_open(&self) -> (b: bool)
        ensures
            b == self@.open,
    {
        self.open
    }

    /// Judges one delivered payload, as [`spec_server_on_payload`]
    /// describes.
    pub fn on_payload(&mut self, payload: &[u8]) -> (action: ServerAction)
        ensures
            final(self)@ == spec_server_on_payload(old(self)@, payload@).0,
            action@ == spec_server_on_payload(old(self)@, payload@).1,
    {
        match decode_envelope(payload) {
            None => {
                self.open = false;
                ServerAction::Close { err: Error::Serialization }
            },
            Some(env) => {
                match env.body {
                    Body::Request { method, args } => ServerAction::Invoke {
                        id: env.id,
                        method,
                        args,
                    },
                    Body::Response { .. } => {
                        self.open = false;
                        ServerAction::Close { err: Error::Serialization }
                    },
                }
            },
        }
    }

    /// Encodes a handler outcome as the response frame for `id`. A service
    /// error is encoded exactly like a success value — it is data, and does
    /// not close the connection — so the same connection serves further
    /// requests whatever the outcome was. Only an oversized payload fails.
    pub fn encode_reply(&self, id: u64, result: Result<Vec<u8>, ServiceError>) -> (r: Result<
        Vec<u8>,
        FramingError,
    >)
        ensures
            (match r {
                Ok(frame) => spec_encode_envelope(
                    spec_response_envelope(id, result_bytes(result)),
                ).len() <= self@.max_frame_len && frame@ == spec_encode_frame(
                    spec_response_envelope(id, result_bytes(result)),
                ),
                Err(err) => err == FramingError::TooLarge && spec_encode_envelope(
                    spec_response_envelope(id, result_bytes(result)),
                ).len() > self@.max_frame_len,
            }),
    {
        let env = Envelope::response(id, result);
        encode_frame(&env, &self.config)
    }

    /// Marks the connection closed after a transport-level failure.
    pub fn close(&mut self)
        ensures
            final(self)@ == (ServerView { open: false, max_frame_len: old(self)@.max_frame_len }),
    {
        self.open = false;
    }
}

/// The byte-level model of a handler outcome.
pub open spec fn result_bytes(result: Result<Vec<u8>, ServiceError>) -> Result<Seq<u8>, Seq<u8>> {
    match result {
        Ok(value) => Ok(value@),
        Err(err) => Err(err.detail@),
    }
}

} // verus!
