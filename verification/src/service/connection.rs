//! Framing of messages on a connection's byte stream.
//!
//! Every message travels as a four-byte envelope header — total length,
//! then wire type, both big-endian — followed by `length - 4` bytes of
//! body.  The functions here are the whole framing logic of a connection:
//! `encode_frame` produces the outbound bytes and refuses an oversized
//! message at construction time, and `recv_step` decides, from the bytes
//! that have arrived so far, whether a message is complete, how many bytes
//! are still missing, or whether the stream is fatally desynchronized.
//!
//! A header claiming a length below four is a protocol violation: the
//! stream can no longer be split into messages and the connection must be
//! torn down, never resumed.

use crate::util::serial::be16;
use crate::util::serial::be16_val;
use crate::util::serial::lemma_be16_roundtrip;
use crate::util::serial::push_u16_be;
use crate::util::serial::read_u16_be;
use vstd::prelude::*;
use vstd::slice::slice_subrange;
use vstd::slice::slice_to_vec;

verus! {

/// Frames longer than this cannot be described by the 16-bit length field:
/// no message on the wire may exceed it.
pub const MAX_MESSAGE_LENGTH: usize = 65535;

/// The byte image of one whole frame: header, then body.
pub open spec fn frame_bytes(typ: u16, body: Seq<u8>) -> Seq<u8>
    recommends
        body.len() + 4 <= MAX_MESSAGE_LENGTH,
{
    be16((body.len() + 4) as u16) + be16(typ) + body
}

/// The total length claimed by the header at the front of `stream`.
pub open spec fn claimed_len(stream: Seq<u8>) -> u16
    recommends
        stream.len() >= 4,
{
    be16_val(stream.subrange(0, 2))
}

/// The wire type announced by the header at the front of `stream`.
pub open spec fn claimed_typ(stream: Seq<u8>) -> u16
    recommends
        stream.len() >= 4,
{
    be16_val(stream.subrange(2, 4))
}

/// Error establishing a connection to a service.
#[derive(Debug)]
pub enum ConnectError {
    /// The configuration does not say how to reach the service: it has
    /// no socket path entry for it.
    NotConfigured {
        /// The underlying error.
        source: crate::util::config::ConfigGetFilenameError,
    },
    /// An OS-level failure while connecting.
    Io {
        /// The underlying error.
        source: std::io::Error,
    },
}

/// Error receiving one message from a connection.
#[derive(Debug)]
pub enum ReadMessageError {
    /// The header claims fewer bytes than it occupies itself; the stream
    /// is desynchronized.
    ShortMessage {
        /// The length the header claimed, below four.
        claimed: u16,
    },
    /// An OS-level failure while reading.
    Io {
        /// The underlying error.
        source: std::io::Error,
    },
    /// The stream ended in the middle of a message.
    Disconnected,
}

/// Error constructing an outbound frame: the message would not fit the
/// 16-bit length field.
#[derive(Debug, PartialEq, Eq, Structural)]
pub enum EncodeError {
    /// The body has `body_len` bytes; with the four header bytes that
    /// exceeds the largest expressible message.
    TooLong {
        /// Length of the rejected body.
        body_len: usize,
    },
}

/// Error splitting the inbound stream: fatal, the connection is broken.
#[derive(Debug, PartialEq, Eq, Structural)]
pub enum FramingError {
    /// The header claims fewer bytes than it occupies itself.  The stream
    /// is desynchronized; the connection must be considered broken.
    ShortMessage {
        /// The length the header claimed, below four.
        claimed: u16,
    },
}

/// What one receive step found in the bytes read so far.
pub enum RecvStep {
    /// No complete message yet; exactly `missing` further bytes are needed
    /// before the next decision.
    NeedMore {
        /// Bytes still to be read.
        missing: usize,
    },
    /// One complete message: its wire type, its body with the header
    /// stripped, and how many bytes of the stream it consumed.
    Message {
        /// The wire type from the header.
        typ: u16,
        /// The body: everything after the four header bytes.
        body: Vec<u8>,
        /// Bytes of the stream this message occupied, header included.
        consumed: usize,
    },
}

/// Build the outbound bytes of one message: header, then body.  Fails —
/// rather than truncating — exactly where the framed message would exceed
/// `MAX_MESSAGE_LENGTH`.
pub fn encode_frame(typ: u16, body: &[u8]) -> (r: Result<Vec<u8>, EncodeError>)
    ensures
        match r {
            Ok(v) => body@.len() + 4 <= MAX_MESSAGE_LENGTH && v@ == frame_bytes(typ, body@),
            Err(EncodeError::TooLong { body_len }) => body_len == body@.len() && body@.len() + 4
                > MAX_MESSAGE_LENGTH,
        },
{
    if body.len() > MAX_MESSAGE_LENGTH - 4 {
        return Err(EncodeError::TooLong { body_len: body.len() });
    }
    let mut out: Vec<u8> = Vec::new();
    push_u16_be(&mut out, (body.len() + 4) as u16);
    push_u16_be(&mut out, typ);
    let mut i: usize = 0;
    while i < body.len()
        invariant
            i <= body@.len(),
            body@.len() + 4 <= MAX_MESSAGE_LENGTH,
            out@ == be16((body@.len() + 4) as u16) + be16(typ) + body@.subrange(0, i as int),
        decreases body@.len() - i,
    {
        out.push(body[i]);
        i += 1;
        assert(out@ =~= be16((body@.len() + 4) as u16) + be16(typ) + body@.subrange(0, i as int));
    }
    proof {
        assert(body@.subrange(0, body@.len() as int) =~= body@);
    }
    Ok(out)
}

/// One receive step over the bytes of the stream read so far.
///
/// With fewer than four bytes the header itself is incomplete.  A header
/// claiming a length below four is a fatal `ShortMessage`: no attempt is
/// made to read a negative remainder.  Otherwise the message is complete
/// exactly when `claimed_len` bytes have arrived, and its body is the
/// stream between the header and that point.
pub fn recv_step(stream: &[u8]) -> (r: Result<RecvStep, FramingError>)
    ensures
        match r {
            Ok(step) => match step {
                RecvStep::NeedMore { missing } => (stream@.len() < 4 && missing == 4
                    - stream@.len()) || (stream@.len() >= 4 && claimed_len(stream@) >= 4
                    && stream@.len() < claimed_len(stream@) && missing == claimed_len(stream@)
                    - stream@.len()),
                RecvStep::Message { typ, body, consumed } => {
                    &&& stream@.len() >= 4
                    &&& claimed_len(stream@) >= 4
                    &&& claimed_len(stream@) <= stream@.len()
                    &&& typ == claimed_typ(stream@)
                    &&& consumed == claimed_len(stream@)
                    &&& body@ == stream@.subrange(4, claimed_len(stream@) as int)
                },
            },
            Err(FramingError::ShortMessage { claimed }) => stream@.len() >= 4 && claimed
                == claimed_len(stream@) && claimed < 4,
        },
{
    if stream.len() < 4 {
        return Ok(RecvStep::NeedMore { missing: 4 - stream.len() });
    }
    let len = read_u16_be(stream, 0);
    let typ = read_u16_be(stream, 2);
    if len < 4 {
        return Err(FramingError::ShortMessage { claimed: len });
    }
    if stream.len() < len as usize {
        return Ok(RecvStep::NeedMore { missing: len as usize - stream.len() });
    }
    let body = slice_to_vec(slice_subrange(stream, 4, len as usize));
    Ok(RecvStep::Message { typ, body, consumed: len as usize })
}

/// Framing round-trip: a frame built from any type and any body that fits
/// the length field is split back into exactly that type and that body,
/// whatever bytes follow it on the stream.
pub proof fn lemma_frame_roundtrip(typ: u16, body: Seq<u8>, rest: Seq<u8>)
    requires
        body.len() + 4 <= MAX_MESSAGE_LENGTH,
    ensures
        ({
            let stream = frame_bytes(typ, body) + rest;
            &&& stream.len() >= 4
            &&& claimed_len(stream) == body.len() + 4
            &&& claimed_typ(stream) == typ
            &&& claimed_len(stream) <= stream.len()
            &&& stream.subrange(4, claimed_len(stream) as int) == body
        }),
{
    let stream = frame_bytes(typ, body) + rest;
    let len = (body.len() + 4) as u16;
    assert(stream.subrange(0, 2) =~= be16(len));
    assert(stream.subrange(2, 4) =~= be16(typ));
    lemma_be16_roundtrip(len);
    lemma_be16_roundtrip(typ);
    assert(stream.subrange(4, claimed_len(stream) as int) =~= body);
}

} // verus!
