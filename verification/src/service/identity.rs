//! The identity service client's verified parts: egos, its messages, and
//! the decisions of its receive loop.

pub mod msg;

use crate::crypto::ecdsa::scalarmult_base_of;
use crate::crypto::ecdsa::EcdsaPrivateKey;
use crate::crypto::ecdsa::EcdsaPublicKey;
use crate::crypto::hashcode::sha512_of;
use crate::crypto::hashcode::HashCode;
use crate::util::message::expect_either;
use crate::util::message::Either;
use crate::util::message::ExpectError;
use crate::util::message::MessageIn;
use crate::util::message_type::MessageType;
use msg::ResultCode;
use msg::SetDefault;
use vstd::prelude::*;

verus! {

/// The hash identifying the public key derived from the private key
/// `sk`: the key's big-endian scalar bytes, reversed, multiplied onto the
/// base point, hashed.
pub open spec fn spec_ego_id(sk: Seq<u8>) -> Seq<u8> {
    sha512_of(scalarmult_base_of(Seq::new(32, |i: int| sk[31 - i])))
}

/// A GNUnet identity: a key pair and a name.
#[derive(Clone)]
pub struct Ego {
    sk: EcdsaPrivateKey,
    name: Option<String>,
    id: HashCode,
}

impl Ego {
    /// The private key's scalar bytes.
    pub closed spec fn spec_sk(self) -> Seq<u8> {
        self.sk.spec_bytes()
    }

    /// The name, `None` for the anonymous ego.
    pub closed spec fn spec_name(self) -> Option<Seq<char>> {
        match self.name {
            Some(n) => Some(n@),
            None => None,
        }
    }

    /// The hash identifying the ego's public key.
    pub closed spec fn spec_id(self) -> Seq<u8> {
        self.id.bits@
    }

    /// An ego from its private key and name; the id is the hash of the
    /// derived public key.
    pub fn from_key_and_name(sk: EcdsaPrivateKey, name: Option<String>) -> (r: Ego)
        ensures
            r.spec_sk() == sk.spec_bytes(),
            r.spec_name() == match name {
                Some(n) => Some(n@),
                None => None::<Seq<char>>,
            },
            r.spec_id() == spec_ego_id(sk.spec_bytes()),
    {
        let id = sk.get_public().hash();
        Ego { sk, name, id }
    }

    /// A copy of the global, anonymous ego: the fixed scalar one, no
    /// name.
    pub fn anonymous() -> (r: Ego)
        ensures
            r.spec_sk() == Seq::new(32, |i: int| if i == 31 { 1u8 } else { 0u8 }),
            r.spec_name() is None,
            r.spec_id() == spec_ego_id(Seq::new(32, |i: int| if i == 31 { 1u8 } else { 0u8 })),
    {
        let sk = EcdsaPrivateKey::anonymous();
        Ego::from_key_and_name(sk, None)
    }

    /// The public key of the ego.
    pub fn get_public_key(&self) -> (r: EcdsaPublicKey)
        ensures
            r.spec_bytes() == scalarmult_base_of(Seq::new(32, |i: int| self.spec_sk()[31 - i])),
    {
        self.sk.get_public()
    }

    /// The private key of the ego.
    pub fn get_private_key(&self) -> (r: EcdsaPrivateKey)
        ensures
            r.spec_bytes() == self.spec_sk(),
    {
        self.sk
    }

    /// The name of the ego.
    pub fn get_name(&self) -> (r: Option<String>)
        ensures
            match r {
                Some(n) => self.spec_name() == Some(n@),
                None => self.spec_name() is None,
            },
    {
        match &self.name {
            Some(n) => Some(n.clone()),
            None => None,
        }
    }

    /// The unique id of the ego: the hash of its public key.
    pub fn get_id(&self) -> (r: &HashCode)
        ensures
            r.bits@ == self.spec_id(),
    {
        &self.id
    }
}

/// Error connecting to the identity service.
#[derive(Debug)]
pub enum ConnectError {
    /// The connection could not be established.
    Connect {
        /// The underlying error.
        source: crate::service::connection::ConnectError,
    },
    /// The service disconnected unexpectedly.
    Disconnected,
    /// An I/O error talking to the service.
    Io {
        /// The underlying error.
        source: std::io::Error,
    },
}

/// Error reading the identity update stream.
#[derive(Debug)]
pub enum UpdateStreamError {
    /// The service sent a name holding invalid UTF-8.
    InvalidName {
        /// The underlying error.
        source: core::str::Utf8Error,
    },
    /// The service sent an unexpected or malformed message.
    UnexpectedMessageType {
        /// The wire type actually received.
        typ: u16,
    },
    /// An I/O error talking to the service.
    Io {
        /// The underlying error.
        source: std::io::Error,
    },
}

/// Error asking for the default identity of a subsystem.
#[derive(Debug)]
pub enum GetDefaultEgoError {
    /// The subsystem name is too long for a message.
    NameTooLong {
        /// The rejected name.
        name: String,
    },
    /// An I/O error talking to the service.
    Io {
        /// The underlying error.
        source: std::io::Error,
    },
    /// The service answered with an error message.
    ServiceResponse {
        /// The message the service sent.
        response: String,
    },
    /// The service's error message held invalid UTF-8.
    MalformedErrorResponse {
        /// The underlying error.
        source: core::str::Utf8Error,
    },
    /// The identity name could not be received.
    ReceiveName,
    /// The connection could not be established.
    Connect {
        /// The underlying error.
        source: ConnectError,
    },
    /// The service response was incoherent.
    InvalidResponse,
    /// The service disconnected unexpectedly.
    Disconnected,
}

/// Error connecting and fetching the default ego in one step.
#[derive(Debug)]
pub enum ConnectGetDefaultEgoError {
    /// The lookup of the default ego failed.
    GetDefaultEgo {
        /// The underlying error.
        source: GetDefaultEgoError,
    },
    /// The connection and initial exchange failed.
    Connect {
        /// The underlying error.
        source: ConnectError,
    },
    /// An I/O error talking to the service.
    Io {
        /// The underlying error.
        source: std::io::Error,
    },
}

/// Decide on the response to a default-identity request: a `SetDefault`
/// message carries the ego, a `ResultCode` carries the service's error
/// text, anything else is incoherent.
pub fn parse_get_default_response(typ: u16, body: &[u8]) -> (r: Result<Ego, GetDefaultEgoError>)
    ensures
        match r {
            Ok(e) => {
                &&& typ == MessageType::IDENTITY_SET_DEFAULT.code()
                &&& SetDefault::spec_parse(body@) matches Some(sd) && e.spec_sk()
                    == sd.private_key && e.spec_name() == Some(sd.name) && e.spec_id()
                    == spec_ego_id(sd.private_key)
            },
            Err(GetDefaultEgoError::ServiceResponse { response }) => {
                &&& typ == MessageType::IDENTITY_RESULT_CODE.code()
                &&& ResultCode::spec_parse(body@) matches Some(rc) && response@ == rc.err_msg
            },
            Err(GetDefaultEgoError::InvalidResponse) => (typ
                != MessageType::IDENTITY_RESULT_CODE.code() && typ
                != MessageType::IDENTITY_SET_DEFAULT.code()) || (typ
                == MessageType::IDENTITY_RESULT_CODE.code() && ResultCode::spec_parse(body@)
                is None) || (typ == MessageType::IDENTITY_SET_DEFAULT.code()
                && SetDefault::spec_parse(body@) is None),
            _ => false,
        },
{
    match expect_either::<ResultCode, SetDefault>(typ, body) {
        Ok(Either::Left(rc)) => Err(
            GetDefaultEgoError::ServiceResponse { response: rc.err_msg },
        ),
        Ok(Either::Right(sd)) => {
            let (name, sk) = sd.into_name_and_key();
            Ok(Ego::from_key_and_name(sk, Some(name)))
        },
        Err(ExpectError::UnexpectedMessage { .. }) => Err(GetDefaultEgoError::InvalidResponse),
        Err(ExpectError::ParseFailure { .. }) => Err(GetDefaultEgoError::InvalidResponse),
    }
}

/// Decide on one message of the identity update stream: an `Update`
/// carries one ego, the end-of-list update answers `None`, anything else
/// is unexpected.
pub fn parse_update_message(typ: u16, body: &[u8]) -> (r: Result<Option<Ego>, UpdateStreamError>)
    ensures
        match r {
            Ok(Some(e)) => {
                &&& typ == MessageType::IDENTITY_UPDATE.code()
                &&& msg::Update::spec_parse(body@) matches Some(u) && u.end_of_list == 0
                    && e.spec_sk() == u.private_key && e.spec_name() == Some(u.name) && e.spec_id()
                    == spec_ego_id(u.private_key)
            },
            Ok(None) => {
                &&& typ == MessageType::IDENTITY_UPDATE.code()
                &&& msg::Update::spec_parse(body@) matches Some(u) && u.end_of_list != 0
            },
            Err(UpdateStreamError::UnexpectedMessageType { typ: t }) => t == typ && (typ
                != MessageType::IDENTITY_UPDATE.code() || msg::Update::spec_parse(body@) is None),
            _ => false,
        },
{
    match crate::util::message::expect::<msg::Update>(typ, body) {
        Ok(u) => {
            if u.end_of_list() {
                Ok(None)
            } else {
                Ok(Some(Ego::from_key_and_name(u.private_key, Some(u.name))))
            }
        },
        Err(_) => Err(UpdateStreamError::UnexpectedMessageType { typ }),
    }
}

} // verus!
