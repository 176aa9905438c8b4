//! The peerinfo service client's verified parts: its messages and the
//! decisions of its receive loop.

pub mod msg;

use crate::util::hello::HelloMessage;
use crate::util::message::expect_either;
use crate::util::message::Either;
use crate::util::message::ExpectError;
use crate::util::message::MessageIn;
use crate::util::message_type::MessageType;
use msg::Info;
use msg::InfoEnd;
use vstd::prelude::*;

verus! {

/// Error talking to the peerinfo service.
#[derive(Debug)]
pub enum PeerInfoError {
    /// The service answered with an unexpected or malformed message.
    UnexpectedResponse {
        /// The underlying error.
        source: ExpectError,
    },
    /// An I/O error talking to the service.
    Io {
        /// The underlying error.
        source: std::io::Error,
    },
    /// The service disconnected unexpectedly.
    Disconnected,
    /// The connection could not be established.
    Connect {
        /// The underlying error.
        source: crate::service::connection::ConnectError,
    },
}

/// Decide on one message of a peer listing: an `Info` carries one peer's
/// HELLO, `InfoEnd` ends the listing (`None`), anything else is an
/// unexpected response.
pub fn parse_peer_listing(typ: u16, body: &[u8]) -> (r: Result<
    Option<HelloMessage>,
    PeerInfoError,
>)
    ensures
        match r {
            Ok(Some(h)) => {
                &&& typ == MessageType::PEERINFO_INFO.code()
                &&& Info::spec_parse(body@) matches Some(i) && h@ == i.hello
            },
            Ok(None) => typ == MessageType::PEERINFO_INFO_END.code() && typ
                != MessageType::PEERINFO_INFO.code() && InfoEnd::spec_parse(body@) is Some,
            Err(PeerInfoError::UnexpectedResponse { source }) => match source {
                ExpectError::UnexpectedMessage { msg_type } => msg_type == typ && typ
                    != MessageType::PEERINFO_INFO.code() && typ
                    != MessageType::PEERINFO_INFO_END.code(),
                ExpectError::ParseFailure { msg_type } => (typ == MessageType::PEERINFO_INFO.code()
                    && msg_type == MessageType::PEERINFO_INFO && Info::spec_parse(body@) is None)
                    || (typ != MessageType::PEERINFO_INFO.code() && typ
                    == MessageType::PEERINFO_INFO_END.code() && msg_type
                    == MessageType::PEERINFO_INFO_END && InfoEnd::spec_parse(body@) is None),
            },
            _ => false,
        },
{
    match expect_either::<Info, InfoEnd>(typ, body) {
        Ok(Either::Left(info)) => Ok(Some(info.hello)),
        Ok(Either::Right(_end)) => Ok(None),
        Err(source) => Err(PeerInfoError::UnexpectedResponse { source }),
    }
}

} // verus!
