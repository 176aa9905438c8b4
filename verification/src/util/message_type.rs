//! Registry of wire types: the 16-bit code in every message header mapped to
//! the semantic kind of message it announces.
//!
//! The enumeration is a closed set of the kinds this client speaks or may
//! observe; an unrecognized code is never an error by itself — `from_u16`
//! answers `None` and the caller degrades to a typed error instead of
//! aborting.

use vstd::prelude::*;

verus! {

/// Semantic kind of a message, named after the protocol it belongs to.
#[allow(non_camel_case_types)]
#[derive(Copy, Clone, Debug, PartialEq, Eq, Structural)]
pub enum MessageType {
    /// Test if a service is online (deprecated).
    TEST,
    /// Dummy message for testing and benchmarking.
    DUMMY,
    /// Another dummy message for testing and benchmarking.
    DUMMY2,
    /// Request DNS resolution.
    RESOLVER_REQUEST,
    /// Response to a DNS resolution request.
    RESOLVER_RESPONSE,
    /// Message to request a source code link.
    REQUEST_AGPL,
    /// Source code link.
    RESPONSE_AGPL,
    /// Request to ARM to start a service.
    ARM_START,
    /// Request to ARM to stop a service.
    ARM_STOP,
    /// Response from ARM.
    ARM_RESULT,
    /// Status update from ARM.
    ARM_STATUS,
    /// Request to ARM to list all currently running services.
    ARM_LIST,
    /// Response from ARM for listing currently running services.
    ARM_LIST_RESULT,
    /// Request to ARM to notify the client of service status changes.
    ARM_MONITOR,
    /// Test if the ARM service is online.
    ARM_TEST,
    /// Legacy HELLO message, previously used for peer addresses.
    HELLO_LEGACY,
    /// HELLO message with friend-only flag, carries peer addresses.
    HELLO,
    /// Fragment of a larger message.
    FRAGMENT,
    /// Acknowledgement of a fragment.
    FRAGMENT_ACK,
    /// Request information about a single peer.
    PEERINFO_GET,
    /// Request information about all peers.
    PEERINFO_GET_ALL,
    /// Information about one peer.
    PEERINFO_INFO,
    /// End of the list of peer information.
    PEERINFO_INFO_END,
    /// Ask the peerinfo service for notifications.
    PEERINFO_NOTIFY,
    /// Start a session with the transport service.
    TRANSPORT_START,
    /// Client would like to look up a name in GNS.
    GNS_LOOKUP,
    /// Service returns the records for a GNS lookup.
    GNS_LOOKUP_RESULT,
    /// First message from an identity client, subscribes to updates.
    IDENTITY_START,
    /// Generic response from the identity service with success or error.
    IDENTITY_RESULT_CODE,
    /// Update about identity status from service to clients.
    IDENTITY_UPDATE,
    /// Client asks for the default identity of a subsystem.
    IDENTITY_GET_DEFAULT,
    /// Client sets, or service reports, the default identity.
    IDENTITY_SET_DEFAULT,
    /// Create a new identity.
    IDENTITY_CREATE,
    /// Rename an existing identity.
    IDENTITY_RENAME,
    /// Delete an identity.
    IDENTITY_DELETE,
    /// Look up a single ego by name.
    IDENTITY_LOOKUP,
    /// Open a CADET channel to another peer.
    CADET_CHANNEL_OPEN,
    /// Destroy a CADET channel.
    CADET_CHANNEL_DESTROY,
    /// Ask the local CADET service to create a channel.
    CADET_LOCAL_CHANNEL_CREATE,
    /// Matches every message type.
    ALL,
}

impl MessageType {
    /// The 16-bit code of this kind on the wire.
    pub open spec fn code(self) -> u16 {
        match self {
            MessageType::TEST => 1,
            MessageType::DUMMY => 2,
            MessageType::DUMMY2 => 3,
            MessageType::RESOLVER_REQUEST => 4,
            MessageType::RESOLVER_RESPONSE => 5,
            MessageType::REQUEST_AGPL => 6,
            MessageType::RESPONSE_AGPL => 7,
            MessageType::ARM_START => 8,
            MessageType::ARM_STOP => 9,
            MessageType::ARM_RESULT => 10,
            MessageType::ARM_STATUS => 11,
            MessageType::ARM_LIST => 12,
            MessageType::ARM_LIST_RESULT => 13,
            MessageType::ARM_MONITOR => 14,
            MessageType::ARM_TEST => 15,
            MessageType::HELLO_LEGACY => 16,
            MessageType::HELLO => 17,
            MessageType::FRAGMENT => 18,
            MessageType::FRAGMENT_ACK => 19,
            MessageType::PEERINFO_GET => 330,
            MessageType::PEERINFO_GET_ALL => 331,
            MessageType::PEERINFO_INFO => 332,
            MessageType::PEERINFO_INFO_END => 333,
            MessageType::PEERINFO_NOTIFY => 334,
            MessageType::TRANSPORT_START => 360,
            MessageType::GNS_LOOKUP => 500,
            MessageType::GNS_LOOKUP_RESULT => 501,
            MessageType::IDENTITY_START => 624,
            MessageType::IDENTITY_RESULT_CODE => 625,
            MessageType::IDENTITY_UPDATE => 626,
            MessageType::IDENTITY_GET_DEFAULT => 627,
            MessageType::IDENTITY_SET_DEFAULT => 628,
            MessageType::IDENTITY_CREATE => 629,
            MessageType::IDENTITY_RENAME => 630,
            MessageType::IDENTITY_DELETE => 631,
            MessageType::IDENTITY_LOOKUP => 632,
            MessageType::CADET_CHANNEL_OPEN => 1013,
            MessageType::CADET_CHANNEL_DESTROY => 1014,
            MessageType::CADET_LOCAL_CHANNEL_CREATE => 1024,
            MessageType::ALL => 65535,
        }
    }

    /// The kind a 16-bit code announces, `None` for a code outside the
    /// closed set.
    pub open spec fn from_code(v: u16) -> Option<MessageType> {
        match v {
            1u16 => Some(MessageType::TEST),
            2u16 => Some(MessageType::DUMMY),
            3u16 => Some(MessageType::DUMMY2),
            4u16 => Some(MessageType::RESOLVER_REQUEST),
            5u16 => Some(MessageType::RESOLVER_RESPONSE),
            6u16 => Some(MessageType::REQUEST_AGPL),
            7u16 => Some(MessageType::RESPONSE_AGPL),
            8u16 => Some(MessageType::ARM_START),
            9u16 => Some(MessageType::ARM_STOP),
            10u16 => Some(MessageType::ARM_RESULT),
            11u16 => Some(MessageType::ARM_STATUS),
            12u16 => Some(MessageType::ARM_LIST),
            13u16 => Some(MessageType::ARM_LIST_RESULT),
            14u16 => Some(MessageType::ARM_MONITOR),
            15u16 => Some(MessageType::ARM_TEST),
            16u16 => Some(MessageType::HELLO_LEGACY),
            17u16 => Some(MessageType::HELLO),
            18u16 => Some(MessageType::FRAGMENT),
            19u16 => Some(MessageType::FRAGMENT_ACK),
            330u16 => Some(MessageType::PEERINFO_GET),
            331u16 => Some(MessageType::PEERINFO_GET_ALL),
            332u16 => Some(MessageType::PEERINFO_INFO),
            333u16 => Some(MessageType::PEERINFO_INFO_END),
            334u16 => Some(MessageType::PEERINFO_NOTIFY),
            360u16 => Some(MessageType::TRANSPORT_START),
            500u16 => Some(MessageType::GNS_LOOKUP),
            501u16 => Some(MessageType::GNS_LOOKUP_RESULT),
            624u16 => Some(MessageType::IDENTITY_START),
            625u16 => Some(MessageType::IDENTITY_RESULT_CODE),
            626u16 => Some(MessageType::IDENTITY_UPDATE),
            627u16 => Some(MessageType::IDENTITY_GET_DEFAULT),
            628u16 => Some(MessageType::IDENTITY_SET_DEFAULT),
            629u16 => Some(MessageType::IDENTITY_CREATE),
            630u16 => Some(MessageType::IDENTITY_RENAME),
            631u16 => Some(MessageType::IDENTITY_DELETE),
            632u16 => Some(MessageType::IDENTITY_LOOKUP),
            1013u16 => Some(MessageType::CADET_CHANNEL_OPEN),
            1014u16 => Some(MessageType::CADET_CHANNEL_DESTROY),
            1024u16 => Some(MessageType::CADET_LOCAL_CHANNEL_CREATE),
            65535u16 => Some(MessageType::ALL),
            _ => None,
        }
    }

    /// The code of this kind.
    pub fn to_u16(&self) -> (r: u16)
        ensures
            r == self.code(),
    {
        match self {
            MessageType::TEST => 1,
            MessageType::DUMMY => 2,
            MessageType::DUMMY2 => 3,
            MessageType::RESOLVER_REQUEST => 4,
            MessageType::RESOLVER_RESPONSE => 5,
            MessageType::REQUEST_AGPL => 6,
            MessageType::RESPONSE_AGPL => 7,
            MessageType::ARM_START => 8,
            MessageType::ARM_STOP => 9,
            MessageType::ARM_RESULT => 10,
            MessageType::ARM_STATUS => 11,
            MessageType::ARM_LIST => 12,
            MessageType::ARM_LIST_RESULT => 13,
            MessageType::ARM_MONITOR => 14,
            MessageType::ARM_TEST => 15,
            MessageType::HELLO_LEGACY => 16,
            MessageType::HELLO => 17,
            MessageType::FRAGMENT => 18,
            MessageType::FRAGMENT_ACK => 19,
            MessageType::PEERINFO_GET => 330,
            MessageType::PEERINFO_GET_ALL => 331,
            MessageType::PEERINFO_INFO => 332,
            MessageType::PEERINFO_INFO_END => 333,
            MessageType::PEERINFO_NOTIFY => 334,
            MessageType::TRANSPORT_START => 360,
            MessageType::GNS_LOOKUP => 500,
            MessageType::GNS_LOOKUP_RESULT => 501,
            MessageType::IDENTITY_START => 624,
            MessageType::IDENTITY_RESULT_CODE => 625,
            MessageType::IDENTITY_UPDATE => 626,
            MessageType::IDENTITY_GET_DEFAULT => 627,
            MessageType::IDENTITY_SET_DEFAULT => 628,
            MessageType::IDENTITY_CREATE => 629,
            MessageType::IDENTITY_RENAME => 630,
            MessageType::IDENTITY_DELETE => 631,
            MessageType::IDENTITY_LOOKUP => 632,
            MessageType::CADET_CHANNEL_OPEN => 1013,
            MessageType::CADET_CHANNEL_DESTROY => 1014,
            MessageType::CADET_LOCAL_CHANNEL_CREATE => 1024,
            MessageType::ALL => 65535,
        }
    }

    /// The kind a code announces; `None` for an unrecognized code.
    pub fn from_u16(v: u16) -> (r: Option<MessageType>)
        ensures
            r == MessageType::from_code(v),
    {
        match v {
            1u16 => Some(MessageType::TEST),
            2u16 => Some(MessageType::DUMMY),
            3u16 => Some(MessageType::DUMMY2),
            4u16 => Some(MessageType::RESOLVER_REQUEST),
            5u16 => Some(MessageType::RESOLVER_RESPONSE),
            6u16 => Some(MessageType::REQUEST_AGPL),
            7u16 => Some(MessageType::RESPONSE_AGPL),
            8u16 => Some(MessageType::ARM_START),
            9u16 => Some(MessageType::ARM_STOP),
            10u16 => Some(MessageType::ARM_RESULT),
            11u16 => Some(MessageType::ARM_STATUS),
            12u16 => Some(MessageType::ARM_LIST),
            13u16 => Some(MessageType::ARM_LIST_RESULT),
            14u16 => Some(MessageType::ARM_MONITOR),
            15u16 => Some(MessageType::ARM_TEST),
            16u16 => Some(MessageType::HELLO_LEGACY),
            17u16 => Some(MessageType::HELLO),
            18u16 => Some(MessageType::FRAGMENT),
            19u16 => Some(MessageType::FRAGMENT_ACK),
            330u16 => Some(MessageType::PEERINFO_GET),
            331u16 => Some(MessageType::PEERINFO_GET_ALL),
            332u16 => Some(MessageType::PEERINFO_INFO),
            333u16 => Some(MessageType::PEERINFO_INFO_END),
            334u16 => Some(MessageType::PEERINFO_NOTIFY),
            360u16 => Some(MessageType::TRANSPORT_START),
            500u16 => Some(MessageType::GNS_LOOKUP),
            501u16 => Some(MessageType::GNS_LOOKUP_RESULT),
            624u16 => Some(MessageType::IDENTITY_START),
            625u16 => Some(MessageType::IDENTITY_RESULT_CODE),
            626u16 => Some(MessageType::IDENTITY_UPDATE),
            627u16 => Some(MessageType::IDENTITY_GET_DEFAULT),
            628u16 => Some(MessageType::IDENTITY_SET_DEFAULT),
            629u16 => Some(MessageType::IDENTITY_CREATE),
            630u16 => Some(MessageType::IDENTITY_RENAME),
            631u16 => Some(MessageType::IDENTITY_DELETE),
            632u16 => Some(MessageType::IDENTITY_LOOKUP),
            1013u16 => Some(MessageType::CADET_CHANNEL_OPEN),
            1014u16 => Some(MessageType::CADET_CHANNEL_DESTROY),
            1024u16 => Some(MessageType::CADET_LOCAL_CHANNEL_CREATE),
            65535u16 => Some(MessageType::ALL),
            _ => None,
        }
    }
}

/// Decoding the code of a kind gives the kind back: the registry never
/// confuses two kinds.
pub broadcast proof fn lemma_message_type_roundtrip(t: MessageType)
    ensures
        MessageType::from_code(#[trigger] t.code()) == Some(t),
{
}

} // verus!
