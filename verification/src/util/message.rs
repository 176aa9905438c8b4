//! The typed-message codec: the fixed four-byte envelope header, the traits
//! that give each message shape its byte image and its bounds-checked
//! parser, and the `expect` / `expect_either` call contracts every service
//! client uses on a received `(wire type, body)` pair.

use crate::util::message_type::MessageType;
use crate::util::serial::be16;
use crate::util::serial::be16_val;
use crate::util::serial::push_u16_be;
use crate::util::serial::read_u16_be;
use vstd::prelude::*;

verus! {

/// The byte image of an envelope header with the given fields.
pub open spec fn spec_header_bytes(len: u16, typ: u16) -> Seq<u8> {
    be16(len) + be16(typ)
}

/// The fixed four-byte prefix of every message: total length of the message
/// (header included) and the wire type, both big-endian on the wire.
///
/// Invariant on every well-formed header: `len >= 4`, since the length
/// counts the header itself.
#[derive(Copy, Clone, Debug, PartialEq, Eq, Structural)]
pub struct MessageHeader {
    /// Total length of the message, header included.
    pub len: u16,
    /// The 16-bit wire type code.
    pub typ: u16,
}

impl MessageHeader {
    /// A header claims at least its own four bytes.
    pub open spec fn wf(self) -> bool {
        self.len >= 4
    }

    /// The total length the header claims.
    pub open spec fn spec_length(self) -> u16 {
        self.len
    }

    /// The wire type the header announces.
    pub open spec fn spec_typ(self) -> u16 {
        self.typ
    }

    /// The four bytes of this header on the wire.
    pub open spec fn wire(self) -> Seq<u8> {
        spec_header_bytes(self.len, self.typ)
    }

    /// Header for a message of `len` total bytes and the given kind.
    pub fn new(len: u16, msg_type: MessageType) -> (r: Self)
        ensures
            r.len == len,
            r.typ == msg_type.code(),
    {
        MessageHeader { len, typ: msg_type.to_u16() }
    }

    /// Header for a message whose body (everything after the header) has
    /// `body_len` bytes.
    pub fn for_body_len(body_len: u16, msg_type: MessageType) -> (r: Self)
        requires
            body_len + 4 <= 0xffff,
        ensures
            r.len == body_len + 4,
            r.typ == msg_type.code(),
            r.wf(),
    {
        MessageHeader { len: body_len + 4, typ: msg_type.to_u16() }
    }

    /// The total length the header claims, header included.
    pub fn length(&self) -> (r: u16)
        ensures
            r == self.len,
    {
        self.len
    }

    /// The raw 16-bit wire type.
    pub fn msg_type_u16(&self) -> (r: u16)
        ensures
            r == self.typ,
    {
        self.typ
    }

    /// The registered kind of this message, `None` for an unrecognized code.
    pub fn msg_type(&self) -> (r: Option<MessageType>)
        ensures
            r == MessageType::from_code(self.typ),
    {
        MessageType::from_u16(self.typ)
    }

    /// Append the four header bytes.
    pub fn encode(&self, out: &mut Vec<u8>)
        ensures
            final(out)@ == old(out)@ + self.wire(),
    {
        push_u16_be(out, self.len);
        push_u16_be(out, self.typ);
        assert(out@ =~= old(out)@ + self.wire());
    }

    /// Bounds-checked prefix parse: the header read from the first four
    /// bytes, and the rest of the buffer.  `None` where fewer than four
    /// bytes are present — never a crash or an out-of-bounds read.
    pub fn parse(b: &[u8]) -> (r: Option<(MessageHeader, &[u8])>)
        ensures
            match r {
                Some((h, rest)) => {
                    &&& b@.len() >= 4
                    &&& h.len == be16_val(b@.subrange(0, 2))
                    &&& h.typ == be16_val(b@.subrange(2, 4))
                    &&& rest@ == b@.subrange(4, b@.len() as int)
                },
                None => b@.len() < 4,
            },
{
        if b.len() < 4 {
            return None;
        }
        let len = read_u16_be(b, 0);
        let typ = read_u16_be(b, 2);
        let (_head, rest) = b.split_at(4);
        Some((MessageHeader { len, typ }, rest))
    }
}

/// Parsing the bytes of a header gives the header back.
pub broadcast proof fn lemma_header_roundtrip(h: MessageHeader, rest: Seq<u8>)
    ensures
        ({
            let b = #[trigger] (h.wire() + rest);
            &&& b.len() >= 4
            &&& be16_val(b.subrange(0, 2)) == h.len
            &&& be16_val(b.subrange(2, 4)) == h.typ
            &&& b.subrange(4, b.len() as int) == rest
        }),
{
    let b = h.wire() + rest;
    assert(b.subrange(0, 2) =~= be16(h.len));
    assert(b.subrange(2, 4) =~= be16(h.typ));
    assert(b.subrange(4, b.len() as int) =~= rest);
    crate::util::serial::lemma_be16_roundtrip(h.len);
    crate::util::serial::lemma_be16_roundtrip(h.typ);
}

/// One of two alternatives, used by `expect_either` to report which of the
/// two expected shapes a message matched.
pub enum Either<A, B> {
    /// The first alternative matched.
    Left(A),
    /// The second alternative matched.
    Right(B),
}

/// A message shape that can be parsed from the body of a received message
/// (the bytes after the envelope header).
///
/// `spec_parse` is the shape's parse relation on views: the implementation
/// of `from_bytes` must succeed exactly where it does, with the value it
/// gives.  Parsing is total and bounds-checked: no body may cause a panic
/// or an out-of-bounds read.
pub trait MessageIn: View + Sized {
    /// The one wire type this shape is sent under.
    spec fn spec_msg_type() -> MessageType;

    /// The parse relation: the view of the message encoded in `b`, or
    /// `None` where `b` does not parse as this shape.
    spec fn spec_parse(b: Seq<u8>) -> Option<Self::V>;

    /// The wire type this shape expects.
    fn msg_type() -> (t: MessageType)
        ensures
            t == Self::spec_msg_type(),
    ;

    /// Parse a message body.
    fn from_bytes(b: &[u8]) -> (r: Option<Self>)
        ensures
            match r {
                Some(m) => Self::spec_parse(b@) == Some(m@),
                None => Self::spec_parse(b@) is None,
            },
    ;
}

/// A message shape with a byte image that can be written to a connection:
/// the envelope header followed by the body.
pub trait MessageTrait: View {
    /// The full byte image of a message with this view, header included.
    spec fn spec_wire(v: Self::V) -> Seq<u8>;

    /// The full bytes of this message, ready to be written.
    fn into_slice(&self) -> (r: Vec<u8>)
        ensures
            r@ == Self::spec_wire(self@),
    ;
}

/// A compound message: its byte image is produced as an ordered sequence of
/// independently-owned chunks, written back-to-back without first being
/// concatenated.
pub trait MessageOutCompound: View {
    /// The chunk sequence of a message with this view.
    spec fn spec_chunks(v: Self::V) -> Seq<Seq<u8>>;

    /// The chunks of this message, in writing order.
    fn as_byte_chunks(&self) -> (r: Vec<Vec<u8>>)
        ensures
            r@.map_values(|c: Vec<u8>| c@) == Self::spec_chunks(self@),
    ;
}

/// Error answered by `expect` and `expect_either` on a message that is not
/// of the expected shape.
#[derive(Debug)]
pub enum ExpectError {
    /// The wire type matched none of the expected shapes; no decode of the
    /// body was attempted.
    UnexpectedMessage {
        /// The wire type actually received.
        msg_type: u16,
    },
    /// The wire type matched, but the body did not parse as the shape.
    ParseFailure {
        /// The kind whose parse failed.
        msg_type: MessageType,
    },
}

/// Decode a received `(wire type, body)` pair as the single expected shape
/// `M`.
///
/// Fails with `UnexpectedMessage` exactly where the wire type is not
/// `M`'s, and with `ParseFailure` exactly where the type matches but the
/// body does not parse.
pub fn expect<M: MessageIn>(msg_type: u16, bytes: &[u8]) -> (r: Result<M, ExpectError>)
    ensures
        match r {
            Ok(m) => msg_type == M::spec_msg_type().code() && M::spec_parse(bytes@) == Some(m@),
            Err(e) => match e {
                ExpectError::UnexpectedMessage { msg_type: t } => t == msg_type && msg_type
                    != M::spec_msg_type().code(),
                ExpectError::ParseFailure { msg_type: k } => k == M::spec_msg_type() && msg_type
                    == M::spec_msg_type().code() && M::spec_parse(bytes@) is None,
            },
        },
{
    if msg_type == M::msg_type().to_u16() {
        match M::from_bytes(bytes) {
            Some(m) => Ok(m),
            None => Err(ExpectError::ParseFailure { msg_type: M::msg_type() }),
        }
    } else {
        Err(ExpectError::UnexpectedMessage { msg_type })
    }
}

/// Decode a received `(wire type, body)` pair as one of two expected
/// shapes, reporting which alternative matched.
///
/// The first alternative is tried first; a wire type matching neither
/// shape answers `UnexpectedMessage` without attempting any decode.
pub fn expect_either<A: MessageIn, B: MessageIn>(msg_type: u16, bytes: &[u8]) -> (r: Result<
    Either<A, B>,
    ExpectError,
>)
    ensures
        match r {
            Ok(m) => match m {
                Either::Left(a) => msg_type == A::spec_msg_type().code() && A::spec_parse(bytes@)
                    == Some(a@),
                Either::Right(b) => msg_type != A::spec_msg_type().code() && msg_type
                    == B::spec_msg_type().code() && B::spec_parse(bytes@) == Some(b@),
            },
            Err(e) => match e {
                ExpectError::UnexpectedMessage { msg_type: t } => t == msg_type && msg_type
                    != A::spec_msg_type().code() && msg_type != B::spec_msg_type().code(),
                ExpectError::ParseFailure { msg_type: k } => (msg_type == A::spec_msg_type().code()
                    && k == A::spec_msg_type() && A::spec_parse(bytes@) is None) || (msg_type
                    != A::spec_msg_type().code() && msg_type == B::spec_msg_type().code() && k
                    == B::spec_msg_type() && B::spec_parse(bytes@) is None),
            },
        },
{
    if msg_type == A::msg_type().to_u16() {
        match A::from_bytes(bytes) {
            Some(a) => Ok(Either::Left(a)),
            None => Err(ExpectError::ParseFailure { msg_type: A::msg_type() }),
        }
    } else if msg_type == B::msg_type().to_u16() {
        match B::from_bytes(bytes) {
            Some(b) => Ok(Either::Right(b)),
            None => Err(ExpectError::ParseFailure { msg_type: B::msg_type() }),
        }
    } else {
        Err(ExpectError::UnexpectedMessage { msg_type })
    }
}

} // verus!
