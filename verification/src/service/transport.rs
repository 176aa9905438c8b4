//! The transport service client's verified parts: its messages and the
//! handshake decision.

pub mod msg;

use crate::util::hello::HelloMessage;
use crate::util::message::expect;
use crate::util::message::ExpectError;
use crate::util::message::MessageIn;
use crate::util::message_type::MessageType;
use vstd::prelude::*;

verus! {

/// Error starting a transport session.
#[derive(Debug)]
pub enum ConnectError {
    /// The service answered with something other than a parsable HELLO.
    NonHelloMessage {
        /// The underlying error.
        source: ExpectError,
    },
    /// An I/O error talking to the service.
    Io {
        /// The underlying error.
        source: std::io::Error,
    },
    /// The connection could not be established.
    Connect {
        /// The underlying error.
        source: crate::service::connection::ConnectError,
    },
}

/// Decide on the first message of a transport session: the service must
/// answer the start message with our own HELLO.
pub fn parse_hello_response(typ: u16, body: &[u8]) -> (r: Result<HelloMessage, ConnectError>)
    ensures
        match r {
            Ok(h) => typ == MessageType::HELLO.code() && HelloMessage::spec_parse(body@) == Some(
                h@,
            ),
            Err(ConnectError::NonHelloMessage { source }) => match source {
                ExpectError::UnexpectedMessage { msg_type } => msg_type == typ && typ
                    != MessageType::HELLO.code(),
                ExpectError::ParseFailure { msg_type } => msg_type == MessageType::HELLO && typ
                    == MessageType::HELLO.code() && HelloMessage::spec_parse(body@) is None,
            },
            Err(ConnectError::Io { .. }) => false,
            Err(ConnectError::Connect { .. }) => false,
        },
{
    match expect::<HelloMessage>(typ, body) {
        Ok(h) => Ok(h),
        Err(source) => Err(ConnectError::NonHelloMessage { source }),
    }
}

} // verus!
