//! The wire codec: envelopes to length-prefixed frames and back.
//!
//! A frame is a 4-byte big-endian length prefix followed by exactly that many
//! payload bytes. The payload is the envelope's fixed binary encoding: the
//! 8-byte big-endian correlation id, a discriminator byte, and the body. A
//! request body is a 4-byte selector length, the selector bytes, then the
//! argument bytes; a response body is an outcome byte followed by the value
//! or service-error bytes.

use vstd::prelude::*;
use vstd::slice::{slice_index_get, slice_subrange, slice_to_vec};

use crate::envelope::{Body, BodyView, Envelope, EnvelopeView};
use crate::errors::{FramingError, ServiceError};
use crate::wire::{
    lemma_u32_be_round_trip, lemma_u64_be_round_trip, spec_u32_be, spec_u32_of_be, spec_u64_be,
    spec_u64_of_be, u32_of_be, u32_to_be, u64_of_be, u64_to_be,
};

verus! {

/// Discriminator byte of a request envelope.
pub const TAG_REQUEST: u8 = 0;

/// Discriminator byte of a response envelope.
pub const TAG_RESPONSE: u8 = 1;

/// Outcome byte of a successful response body.
pub const TAG_OK: u8 = 0;

/// Outcome byte of a service-error response body.
pub const TAG_ERR: u8 = 1;

/// The maximum payload length accepted when no other limit is configured.
pub const DEFAULT_MAX_FRAME_LEN: u32 = 8 * 1024 * 1024;

/// Codec configuration shared by both ends of a connection.
#[derive(Clone, Copy, Debug, PartialEq, Eq, Structural)]
pub struct Config {
    /// The largest payload length this end will encode or accept; a frame
    /// declaring more is rejected before its payload is buffered.
    pub max_frame_len: u32,
}

impl Config {
    /// A configuration with the given maximum payload length.
    pub fn new(max_frame_len: u32) -> (c: Config)
        ensures
            c.max_frame_len == max_frame_len,
    {
        Config { max_frame_len }
    }
}

impl Default for Config {
    /// The default configuration.
    fn default() -> (c: Config)
        ensures
            c.max_frame_len == DEFAULT_MAX_FRAME_LEN,
    {
        Config { max_frame_len: DEFAULT_MAX_FRAME_LEN }
    }
}

/// The payload bytes that encode `e`: id, discriminator, body.
pub open spec fn spec_encode_envelope(e: EnvelopeView) -> Seq<u8> {
    spec_u64_be(e.id) + match e.body {
        BodyView::Request { method, args } => seq![TAG_REQUEST] + spec_u32_be(
            method.len() as u32,
        ) + method + args,
        BodyView::Response { result } => match result {
            Ok(value) => seq![TAG_RESPONSE, TAG_OK] + value,
            Err(detail) => seq![TAG_RESPONSE, TAG_ERR] + detail,
        },
    }
}

/// A whole frame: the payload length as a 4-byte big-endian prefix, then the
/// payload. Meaningful when the payload length fits in 32 bits.
pub open spec fn spec_encode_frame(e: EnvelopeView) -> Seq<u8> {
    let p = spec_encode_envelope(e);
    spec_u32_be(p.len() as u32) + p
}

/// The envelope a payload decodes to, or `None` when the bytes do not have
/// the expected structural shape.
pub open spec fn spec_decode_envelope(s: Seq<u8>) -> Option<EnvelopeView> {
    if s.len() < 9 {
        None
    } else {
        let id = spec_u64_of_be(s.subrange(0, 8));
        if s[8] == TAG_REQUEST {
            if s.len() < 13 {
                None
            } else {
                let mlen = spec_u32_of_be(s.subrange(9, 13)) as int;
                if s.len() < 13 + mlen {
                    None
                } else {
                    Some(
                        EnvelopeView {
                            id,
                            body: BodyView::Request {
                                method: s.subrange(13, 13 + mlen),
                                args: s.subrange(13 + mlen, s.len() as int),
                            },
                        },
                    )
                }
            }
        } else if s[8] == TAG_RESPONSE {
            if s.len() < 10 {
                None
            } else if s[9] == TAG_OK {
                Some(
                    EnvelopeView {
                        id,
                        body: BodyView::Response { result: Ok(s.subrange(10, s.len() as int)) },
                    },
                )
            } else if s[9] == TAG_ERR {
                Some(
                    EnvelopeView {
                        id,
                        body: BodyView::Response { result: Err(s.subrange(10, s.len() as int)) },
                    },
                )
            } else {
                None
            }
        } else {
            None
        }
    }
}

/// The payload length a buffered frame prefix declares.
pub open spec fn spec_declared_len(s: Seq<u8>) -> u32
    recommends
        s.len() >= 4,
{
    spec_u32_of_be(s.subrange(0, 4))
}

/// Decoding inverts encoding: any envelope whose payload is no longer than
/// some 32-bit bound decodes back to itself.
pub proof fn lemma_round_trip(e: EnvelopeView, max: u32)
    requires
        spec_encode_envelope(e).len() <= max,
    ensures
        spec_decode_envelope(spec_encode_envelope(e)) == Some(e),
{
    let s = spec_encode_envelope(e);
    lemma_u64_be_round_trip(e.id);
    assert(s.subrange(0, 8) =~= spec_u64_be(e.id));
    match e.body {
        BodyView::Request { method, args } => {
            let mlen = method.len() as int;
            lemma_u32_be_round_trip(method.len() as u32);
            assert(s.len() == 13 + mlen + args.len());
            assert(s[8] == TAG_REQUEST);
            assert(s.subrange(9, 13) =~= spec_u32_be(method.len() as u32));
            assert(spec_u32_of_be(s.subrange(9, 13)) == method.len() as u32);
            assert((method.len() as u32) as int == mlen);
            assert(s.subrange(13, 13 + mlen) =~= method);
            assert(s.subrange(13 + mlen, s.len() as int) =~= args);
        },
        BodyView::Response { result } => {
            match result {
                Ok(value) => {
                    assert(s.len() == 10 + value.len());
                    assert(s[8] == TAG_RESPONSE && s[9] == TAG_OK);
                    assert(s.subrange(10, s.len() as int) =~= value);
                },
                Err(detail) => {
                    assert(s.len() == 10 + detail.len());
                    assert(s[8] == TAG_RESPONSE && s[9] == TAG_ERR);
                    assert(s.subrange(10, s.len() as int) =~= detail);
                },
            }
        },
    }
}

/// A frame written at the head of a stream is recovered whole: the prefix
/// declares exactly the payload length, the payload bytes follow, and the
/// bytes after them are untouched.
pub proof fn lemma_split_encoded_frame(e: EnvelopeView, max: u32, rest: Seq<u8>)
    requires
        spec_encode_envelope(e).len() <= max,
    ensures
        (spec_encode_frame(e) + rest).len() >= 4,
        spec_declared_len(spec_encode_frame(e) + rest) == spec_encode_envelope(e).len(),
        spec_declared_len(spec_encode_frame(e) + rest) <= max,
        (spec_encode_frame(e) + rest).len() >= 4 + spec_declared_len(spec_encode_frame(e) + rest),
        (spec_encode_frame(e) + rest).subrange(
            4,
            4 + spec_declared_len(spec_encode_frame(e) + rest) as int,
        ) == spec_encode_envelope(e),
        (spec_encode_frame(e) + rest).subrange(
            4 + spec_declared_len(spec_encode_frame(e) + rest) as int,
            (spec_encode_frame(e) + rest).len() as int,
        ) == rest,
{
    let p = spec_encode_envelope(e);
    let f = spec_encode_frame(e) + rest;
    lemma_u32_be_round_trip(p.len() as u32);
    assert(f.subrange(0, 4) =~= spec_u32_be(p.len() as u32));
    assert(spec_declared_len(f) == p.len() as u32);
    assert((p.len() as u32) as int == p.len() as int);
    assert(f.subrange(4, 4 + p.len() as int) =~= p);
    assert(f.subrange(4 + p.len() as int, f.len() as int) =~= rest);
}

/// Encodes `e` as one frame, or reports `TooLarge` exactly when the payload
/// would exceed the configured maximum.
pub fn encode_frame(e: &Envelope, config: &Config) -> (r: Result<Vec<u8>, FramingError>)
    ensures
        (match r {
            Ok(f) => spec_encode_envelope(e@).len() <= config.max_frame_len && f@
                == spec_encode_frame(e@),
            Err(err) => spec_encode_envelope(e@).len() > config.max_frame_len && err
                == FramingError::TooLarge,
        }),
{
    let max64: u64 = config.max_frame_len as u64;
    match &e.body {
        Body::Request { method, args } => {
            let m64: u64 = method.len() as u64;
            let a64: u64 = args.len() as u64;
            if m64 > max64 || a64 > max64 {
                return Err(FramingError::TooLarge);
            }
            let total: u64 = 13 + m64 + a64;
            if total > max64 {
                return Err(FramingError::TooLarge);
            }
            let mut out: Vec<u8> = u32_to_be(total as u32);
            let mut idb = u64_to_be(e.id);
            out.append(&mut idb);
            out.push(TAG_REQUEST);
            let mut ml = u32_to_be(method.len() as u32);
            out.append(&mut ml);
            out.extend_from_slice(method.as_slice());
            out.extend_from_slice(args.as_slice());
            proof {
                assert(out@ =~= spec_encode_frame(e@));
            }
            Ok(out)
        },
        Body::Response { result } => {
            let value: &Vec<u8> = match result {
                Ok(value) => value,
                Err(err) => &err.detail,
            };
            let v64: u64 = value.len() as u64;
            if v64 > max64 {
                return Err(FramingError::TooLarge);
            }
            let total: u64 = 10 + v64;
            if total > max64 {
                return Err(FramingError::TooLarge);
            }
            let mut out: Vec<u8> = u32_to_be(total as u32);
            let mut idb = u64_to_be(e.id);
            out.append(&mut idb);
            out.push(TAG_RESPONSE);
            match result {
                Ok(_) => out.push(TAG_OK),
                Err(_) => out.push(TAG_ERR),
            }
            out.extend_from_slice(value.as_slice());
            proof {
                assert(out@ =~= spec_encode_frame(e@));
            }
            Ok(out)
        },
    }
}

/// Decodes one payload into an envelope; `None` exactly when the bytes do
/// not have the expected structural shape (a protocol desync).
pub fn decode_envelope(payload: &[u8]) -> (r: Option<Envelope>)
    ensures
        (match r {
            Some(e) => spec_decode_envelope(payload@) == Some(e@),
            None => spec_decode_envelope(payload@) is None,
        }),
{
    let n = payload.len();
    if n < 9 {
        return None;
    }
    let id = u64_of_be(slice_subrange(payload, 0, 8));
    let tag = *slice_index_get(payload, 8);
    if tag == TAG_REQUEST {
        if n < 13 {
            return None;
        }
        let mlen32 = u32_of_be(slice_subrange(payload, 9, 13));
        let mlen64: u64 = mlen32 as u64;
        if (n as u64) < 13 + mlen64 {
            return None;
        }
        let mlen: usize = mlen32 as usize;
        let method = slice_to_vec(slice_subrange(payload, 13, 13 + mlen));
        let args = slice_to_vec(slice_subrange(payload, 13 + mlen, n));
        Some(Envelope { id, body: Body::Request { method, args } })
    } else if tag == TAG_RESPONSE {
        if n < 10 {
            return None;
        }
        let outcome = *slice_index_get(payload, 9);
        if outcome == TAG_OK {
            let value = slice_to_vec(slice_subrange(payload, 10, n));
            Some(Envelope { id, body: Body::Response { result: Ok(value) } })
        } else if outcome == TAG_ERR {
            let detail = slice_to_vec(slice_subrange(payload, 10, n));
            Some(Envelope { id, body: Body::Response { result: Err(ServiceError { detail }) } })
        } else {
            None
        }
    } else {
        None
    }
}

/// Splits one complete frame's payload off the front of a stream buffer.
///
/// Returns `Ok(None)` while the buffer does not yet hold a whole frame,
/// and `TooLarge` exactly when the prefix declares more than the configured
/// maximum — decided from the 4 prefix bytes alone, before any buffer of the
/// declared size exists.
pub fn split_frame(buf: &mut Vec<u8>, config: &Config) -> (r: Result<Option<Vec<u8>>, FramingError>)
    ensures
        (match r {
            Ok(Some(payload)) => old(buf)@.len() >= 4 && spec_declared_len(old(buf)@)
                <= config.max_frame_len && old(buf)@.len() >= 4 + spec_declared_len(old(buf)@)
                && payload@ == old(buf)@.subrange(4, 4 + spec_declared_len(old(buf)@) as int)
                && final(buf)@ == old(buf)@.subrange(
                4 + spec_declared_len(old(buf)@) as int,
                old(buf)@.len() as int,
            ),
            Ok(None) => final(buf)@ == old(buf)@ && (old(buf)@.len() < 4 || (spec_declared_len(
                old(buf)@,
            ) <= config.max_frame_len && old(buf)@.len() < 4 + spec_declared_len(old(buf)@))),
            Err(err) => err == FramingError::TooLarge && final(buf)@ == old(buf)@ && old(
                buf,
            )@.len() >= 4 && spec_declared_len(old(buf)@) > config.max_frame_len,
        }),
{
    if buf.len() < 4 {
        return Ok(None);
    }
    let declared = u32_of_be(slice_subrange(buf.as_slice(), 0, 4));
    if declared > config.max_frame_len {
        return Err(FramingError::TooLarge);
    }
    let need: u64 = 4 + declared as u64;
    if (buf.len() as u64) < need {
        return Ok(None);
    }
    let cut: usize = need as usize;
    let rest = buf.split_off(cut);
    let payload = buf.split_off(4);
    *buf = rest;
    proof {
        assert(payload@ =~= old(buf)@.subrange(4, 4 + spec_declared_len(old(buf)@) as int));
        assert(final(buf)@ =~= old(buf)@.subrange(
            4 + spec_declared_len(old(buf)@) as int,
            old(buf)@.len() as int,
        ));
    }
    Ok(Some(payload))
}

/// Judges the buffer when the peer closes the stream: leftover bytes mean a
/// frame was cut short.
pub fn on_stream_end(buf: &Vec<u8>) -> (r: Result<(), FramingError>)
    ensures
        (match r {
            Ok(_) => buf@.len() == 0,
            Err(err) => err == FramingError::Truncated && buf@.len() > 0,
        }),
{
    if buf.len() == 0 {
        Ok(())
    } else {
        Err(FramingError::Truncated)
    }
}

} // verus!
