//! The transport service session: the handshake answer and its parse.

use crate::hello::Hello;
use crate::hello::HelloDeserializeError;
use crate::util::io::ByteReader;
use crate::util::message_type::MessageType;
use crate::util::serial::be32_val;
use vstd::prelude::*;

verus! {

/// Error starting a transport service session.
#[derive(Debug)]
pub enum TransportServiceInitError {
    /// The service answered with something other than a HELLO.
    NonHelloMessage {
        /// The wire type actually received.
        typ: u16,
    },
    /// An I/O error talking to the service.
    Io {
        /// The underlying error.
        source: std::io::Error,
    },
    /// The connection could not be established.
    Connect {
        /// The underlying error.
        source: crate::service::connection::ConnectError,
    },
    /// The HELLO the service answered with does not parse.
    HelloDeserialize {
        /// The underlying error.
        source: HelloDeserializeError,
    },
}

/// Decide on the first message of a transport session: the service must
/// answer the start message with our own HELLO.
pub fn parse_self_hello(typ: u16, body: &[u8]) -> (r: Result<Hello, TransportServiceInitError>)
    ensures
        match r {
            Ok(h) => {
                &&& MessageType::from_code(typ) == Some(MessageType::HELLO)
                &&& body@.len() >= 36
                &&& h.friend_only == (be32_val(body@.subrange(0, 4)) != 0)
                &&& h.id.spec_bytes() == body@.subrange(4, 36)
            },
            Err(TransportServiceInitError::NonHelloMessage { typ: t }) => t == typ
                && MessageType::from_code(typ) != Some(MessageType::HELLO),
            Err(TransportServiceInitError::HelloDeserialize { .. }) => MessageType::from_code(typ)
                == Some(MessageType::HELLO) && body@.len() < 36,
            Err(TransportServiceInitError::Io { .. }) => false,
            Err(TransportServiceInitError::Connect { .. }) => false,
        },
{
    match MessageType::from_u16(typ) {
        Some(MessageType::HELLO) => {
            let mut r = ByteReader::new(body);
            match Hello::deserialize(&mut r) {
                Ok(h) => Ok(h),
                Err(source) => Err(TransportServiceInitError::HelloDeserialize { source }),
            }
        },
        _ => Err(TransportServiceInitError::NonHelloMessage { typ }),
    }
}

} // verus!
