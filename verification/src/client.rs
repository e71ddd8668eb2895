//! The client side of one connection: issues requests through the
//! multiplexer and judges every payload the transport delivers.
//!
//! Both call styles share this engine. A blocking caller drives the
//! connection until the action for its own id arrives; a non-blocking caller
//! is handed the action by whatever task drives the connection. Either way,
//! every decision is made here, on plain bytes, and is verified; reading and
//! writing the socket is the caller's concern.

use vstd::prelude::*;

use crate::codec::{encode_frame, decode_envelope, spec_encode_envelope, spec_encode_frame,
    spec_decode_envelope, Config};
use crate::envelope::{spec_request_envelope, spec_response_envelope, Body, BodyView, Envelope};
use crate::errors::{Error, FramingError, ServiceError};
use crate::mux::{spec_cancel, spec_deliver, spec_register, DeliverOutcome, Multiplexer, MuxView};

verus! {

/// What the caller must do after one delivered payload.
pub enum ClientAction {
    /// The waiter registered for `id` gets the response body.
    Resolved {
        /// The correlation id whose waiter resolves.
        id: u64,
        /// The body: a serialized success value or a service error.
        result: Result<Vec<u8>, ServiceError>,
    },
    /// The response answered a locally cancelled request: drop it silently.
    Dropped {
        /// The cancelled correlation id.
        id: u64,
    },
    /// The connection must close; `err` surfaces to every waiter still
    /// pending on it.
    Close {
        /// The connection-fatal error detected.
        err: Error,
    },
}

/// The mathematical model of a [`ClientAction`].
pub enum ClientActionView {
    Resolved { id: u64, result: Result<Seq<u8>, Seq<u8>> },
    Dropped { id: u64 },
    Close { err: Error },
}

impl View for ClientAction {
    type V = ClientActionView;

    open spec fn view(&self) -> ClientActionView {
        match self {
            ClientAction::Resolved { id, result } => ClientActionView::Resolved {
                id: *id,
                result: match result {
                    Ok(value) => Ok(value@),
                    Err(err) => Err(err.detail@),
                },
            },
            ClientAction::Dropped { id } => ClientActionView::Dropped { id: *id },
            ClientAction::Close { err } => ClientActionView::Close { err: *err },
        }
    }
}

/// The mathematical model of a client connection.
pub struct ClientView {
    pub mux: MuxView,
    pub open: bool,
    pub max_frame_len: u32,
}

/// How one delivered payload moves a client connection: decode it, judge the
/// id, and either resolve a waiter, drop a cancelled response, or close.
pub open spec fn spec_client_on_payload(c: ClientView, payload: Seq<u8>) -> (ClientView,
    ClientActionView) {
    match spec_decode_envelope(payload) {
        None => (
            ClientView { mux: c.mux, open: false, max_frame_len: c.max_frame_len },
            ClientActionView::Close { err: Error::Serialization },
        ),
        Some(e) => match e.body {
            BodyView::Request { .. } => (
                ClientView { mux: c.mux, open: false, max_frame_len: c.max_frame_len },
                ClientActionView::Close { err: Error::Serialization },
            ),
            BodyView::Response { result } => {
                let stepped = spec_deliver(c.mux, e.id);
                match stepped.1 {
                    DeliverOutcome::Resolved => (
                        ClientView { mux: stepped.0, open: c.open, max_frame_len: c.max_frame_len },
                        ClientActionView::Resolved { id: e.id, result },
                    ),
                    DeliverOutcome::Cancelled => (
                        ClientView { mux: stepped.0, open: c.open, max_frame_len: c.max_frame_len },
                        ClientActionView::Dropped { id: e.id },
                    ),
                    DeliverOutcome::Unknown => (
                        ClientView { mux: c.mux, open: false, max_frame_len: c.max_frame_len },
                        ClientActionView::Close { err: Error::UnknownRequestId },
                    ),
                }
            },
        },
    }
}

/// The client side of one established connection.
pub struct ClientConn {
    mux: Multiplexer,
    open: bool,
    config: Config,
}

impl View for ClientConn {
    type V = ClientView;

    closed spec fn view(&self) -> ClientView {
        ClientView { mux: self.mux@, open: self.open, max_frame_len: self.config.max_frame_len }
    }
}

impl ClientConn {
    /// The internal invariant of the connection.
    pub closed spec fn inv(self) -> bool {
        self.mux.inv()
    }

    /// The invariant keeps the multiplexer model well formed.
    pub proof fn lemma_inv_wf(&self)
        requires
            self.inv(),
        ensures
            self@.mux.wf(),
    {
        self.mux.lemma_inv_wf();
    }

    /// A fresh client connection: open, nothing in flight, ids from 1.
    pub fn new(config: Config) -> (c: ClientConn)
        ensures
            c.inv(),
            c@ == (ClientView {
                mux: MuxView { next_id: 1u64, pending: Set::<u64>::empty(), cancelled: Set::<
                    u64,
                >::empty() },
                open: true,
                max_frame_len: config.max_frame_len,
            }),
    {
        ClientConn { mux: Multiplexer::new(), open: true, config }
    }

    /// Whether the connection is still usable.
    pub fn is_open(&self) -> (b: bool)
        ensures
            b == self@.open,
    {
        self.open
    }

    /// Whether a response for `id` is still awaited.
    pub fn is_pending(&self, id: u64) -> (b: bool)
        ensures
            b == self@.mux.pending.contains(id),
    {
        self.mux.is_pending(id)
    }

    /// The id the next request will get; ids are finite, so a caller checks
    /// this before sending.
    pub fn next_id(&self) -> (id: u64)
        ensures
            id == self@.mux.next_id,
    {
        self.mux.next_id()
    }

    /// Issues a request: allocates the next id, registers it as pending, and
    /// returns the id with the encoded frame to write. On a closed
    /// connection the call fails with `Connection`; an oversized payload
    /// fails with `TooLarge`; neither failure changes the connection.
    pub fn send_request(&mut self, method: Vec<u8>, args: Vec<u8>) -> (r: Result<
        (u64, Vec<u8>),
        Error,
    >)
        requires
            old(self).inv(),
            old(self)@.mux.next_id < u64::MAX,
        ensures
            final(self).inv(),
            (match r {
                Ok(sent) => old(self)@.open && final(self)@ == (ClientView {
                    mux: spec_register(old(self)@.mux).0,
                    open: true,
                    max_frame_len: old(self)@.max_frame_len,
                }) && sent.0 == spec_register(old(self)@.mux).1 && spec_encode_envelope(
                    spec_request_envelope(sent.0, method@, args@),
                ).len() <= old(self)@.max_frame_len && sent.1@ == spec_encode_frame(
                    spec_request_envelope(sent.0, method@, args@),
                ),
                Err(err) => final(self)@ == old(self)@ && ((err == Error::Connection && !old(
                    self,
                )@.open) || (err == Error::Framing(FramingError::TooLarge) && old(self)@.open
                    && spec_encode_envelope(
                    spec_request_envelope(spec_register(old(self)@.mux).1, method@, args@),
                ).len() > old(self)@.max_frame_len)),
            }),
    {
        if !self.open {
            return Err(Error::Connection);
        }
        let id = self.mux.next_id();
        let env = Envelope::request(id, method, args);
        match encode_frame(&env, &self.config) {
            Ok(frame) => {
                let issued = self.mux.register();
                Ok((issued, frame))
            },
            Err(_) => Err(Error::Framing(FramingError::TooLarge)),
        }
    }

    /// Judges one delivered payload, as [`spec_client_on_payload`]
    /// describes. A response carrying a service error resolves its waiter
    /// like any other: the error is data, and the connection stays open.
    pub fn on_payload(&mut self, payload: &[u8]) -> (action: ClientAction)
        requires
            old(self).inv(),
        ensures
            final(self).inv(),
            final(self)@ == spec_client_on_payload(old(self)@, payload@).0,
            action@ == spec_client_on_payload(old(self)@, payload@).1,
    {
        match decode_envelope(payload) {
            None => {
                self.open = false;
                ClientAction::Close { err: Error::Serialization }
            },
            Some(env) => {
                match env.body {
                    Body::Request { .. } => {
                        self.open = false;
                        ClientAction::Close { err: Error::Serialization }
                    },
                    Body::Response { result } => {
                        let outcome = self.mux.deliver(env.id);
                        match outcome {
                            DeliverOutcome::Resolved => ClientAction::Resolved {
                                id: env.id,
                                result,
                            },
                            DeliverOutcome::Cancelled => ClientAction::Dropped { id: env.id },
                            DeliverOutcome::Unknown => {
                                self.open = false;
                                ClientAction::Close { err: Error::UnknownRequestId }
                            },
                        }
                    },
                }
            },
        }
    }

    /// Cancels a pending request locally, as [`spec_cancel`] describes: its
    /// late response will be dropped silently, every other id is untouched,
    /// and the remote peer is not told.
    pub fn cancel(&mut self, id: u64) -> (was_pending: bool)
        requires
            old(self).inv(),
        ensures
            final(self).inv(),
            final(self)@ == (ClientView {
                mux: spec_cancel(old(self)@.mux, id).0,
                open: old(self)@.open,
                max_frame_len: old(self)@.max_frame_len,
            }),
            was_pending == spec_cancel(old(self)@.mux, id).1,
    {
        self.mux.cancel(id)
    }

    /// Marks the connection closed after a transport-level failure; waiters
    /// learn of it through the caller, and later sends fail with
    /// `Connection`.
    pub fn close(&mut self)
        requires
            old(self).inv(),
        ensures
            final(self).inv(),
            final(self)@ == (ClientView {
                mux: old(self)@.mux,
                open: false,
                max_frame_len: old(self)@.max_frame_len,
            }),
    {
        self.open = false;
    }
}

/// Picks the completed response for one id out of the responses that have
/// arrived so far, removing it from the list and leaving every other entry
/// in order. The blocking call style resolves its own call with this and
/// leaves responses to pipelined calls for their own waiters.
pub fn take_ready(ready: &mut Vec<(u64, Result<Vec<u8>, ServiceError>)>, id: u64) -> (r: Option<
    (u64, Result<Vec<u8>, ServiceError>),
>)
    ensures
        (match r {
            Some(entry) => entry.0 == id && (exists|k: int|
                0 <= k < old(ready)@.len() && old(ready)@[k].0 == id && entry == old(ready)@[k]
                    && final(ready)@ == old(ready)@.remove(k) && (forall|j: int|
                    0 <= j < k ==> old(ready)@[j].0 != id)),
            None => final(ready)@ == old(ready)@ && (forall|k: int|
                0 <= k < old(ready)@.len() ==> old(ready)@[k].0 != id),
        }),
{
    let mut i: usize = 0;
    while i < ready.len()
        invariant
            i <= ready@.len(),
            ready@ == old(ready)@,
            forall|j: int| 0 <= j < i ==> old(ready)@[j].0 != id,
        decreases ready@.len() - i,
    {
        if ready[i].0 == id {
            let entry = ready.remove(i);
            return Some(entry);
        }
        i = i + 1;
    }
    None
}

/// Service errors are survivable: a response carrying a service error for a
/// pending id resolves that id's waiter with the error as data, the
/// connection stays open, and only that id leaves the pending set — so an
/// unrelated request on the same connection still completes afterwards.
pub proof fn lemma_service_error_survivability(c: ClientView, id: u64, detail: Seq<u8>)
    requires
        c.open,
        c.mux.pending.contains(id),
        spec_encode_envelope(spec_response_envelope(id, Err(detail))).len() <= u32::MAX,
    ensures
        spec_client_on_payload(c, spec_encode_envelope(spec_response_envelope(id, Err(detail)))).1
            == (ClientActionView::Resolved { id, result: Err(detail) }),
        spec_client_on_payload(
            c,
            spec_encode_envelope(spec_response_envelope(id, Err(detail))),
        ).0.open,
        spec_client_on_payload(
            c,
            spec_encode_envelope(spec_response_envelope(id, Err(detail))),
        ).0.mux.pending == c.mux.pending.remove(id),
{
    crate::codec::lemma_round_trip(spec_response_envelope(id, Err(detail)), u32::MAX);
}

/// A response whose id was never issued and not locally cancelled is a
/// protocol violation: the connection closes and `UnknownRequestId`
/// surfaces, while the bookkeeping of the waiters still pending is kept, so
/// each of them can be told of the failure.
pub proof fn lemma_unknown_id_closes(c: ClientView, id: u64, result: Result<Seq<u8>, Seq<u8>>)
    requires
        !c.mux.pending.contains(id),
        !c.mux.cancelled.contains(id),
        spec_encode_envelope(spec_response_envelope(id, result)).len() <= u32::MAX,
    ensures
        spec_client_on_payload(c, spec_encode_envelope(spec_response_envelope(id, result))).1 == (
        ClientActionView::Close { err: Error::UnknownRequestId }),
        !spec_client_on_payload(c, spec_encode_envelope(spec_response_envelope(id, result))).0.open,
        spec_client_on_payload(c, spec_encode_envelope(spec_response_envelope(id, result))).0.mux
            == c.mux,
{
    crate::codec::lemma_round_trip(spec_response_envelope(id, result), u32::MAX);
}

} // verus!
