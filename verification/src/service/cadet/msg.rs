//! Messages of the CADET service.

use crate::util::message::MessageHeader;
use crate::util::message::MessageTrait;
use crate::util::message_type::MessageType;
use crate::util::peerid::PeerIdentity;
use crate::util::serial::be32;
use crate::util::serial::push_bytes;
use crate::util::serial::push_u32_be;
use vstd::prelude::*;

verus! {

/// The local number of a channel on one connection.
#[derive(Copy, Clone, Debug, PartialEq, Eq, Structural)]
pub struct ChannelId(pub u32);

/// Options for a new channel.
pub struct ChannelOptions {
    /// Disable buffering of messages on the channel.
    pub no_buffer: bool,
    /// Deliver messages reliably.
    pub reliable: bool,
    /// Allow out-of-order delivery.
    pub out_of_order: bool,
}

impl ChannelOptions {
    /// The 32-bit option word of these options: one bit per option.
    pub open spec fn spec_as_u32(self) -> u32 {
        (if self.no_buffer {
            1u32
        } else {
            0u32
        }) | (if self.reliable {
            2u32
        } else {
            0u32
        }) | (if self.out_of_order {
            4u32
        } else {
            0u32
        })
    }

    /// Encode the options as a `u32` for transmission across the network.
    pub fn as_u32(&self) -> (r: u32)
        ensures
            r == self.spec_as_u32(),
    {
        let no_buffer: u32 = if self.no_buffer { 1 } else { 0 };
        let reliable: u32 = if self.reliable { 2 } else { 0 };
        let out_of_order: u32 = if self.out_of_order { 4 } else { 0 };
        no_buffer | reliable | out_of_order
    }
}

/// The fields of a `LocalChannelCreate` request, as specification values.
pub ghost struct LocalChannelCreateView {
    /// The local channel number chosen for the new channel.
    pub id: u32,
    /// The peer to open the channel to: 32 key bytes.
    pub peer_id: Seq<u8>,
    /// The port to connect to on that peer.
    pub port: u32,
    /// The option word of the channel.
    pub options: u32,
}

/// Ask the local CADET service to create a channel to another peer.
pub struct LocalChannelCreate {
    id: u32,
    peer_id: PeerIdentity,
    port: u32,
    options: u32,
}

impl View for LocalChannelCreate {
    type V = LocalChannelCreateView;

    closed spec fn view(&self) -> LocalChannelCreateView {
        LocalChannelCreateView {
            id: self.id,
            peer_id: self.peer_id.spec_bytes(),
            port: self.port,
            options: self.options,
        }
    }
}

impl LocalChannelCreate {
    /// A request to open a channel with the given number to `peer_id` on
    /// `port`.
    pub fn new(id: ChannelId, peer_id: PeerIdentity, port: u32, options: ChannelOptions) -> (r:
        LocalChannelCreate)
        ensures
            r@.id == id.0,
            r@.peer_id == peer_id.spec_bytes(),
            r@.port == port,
            r@.options == options.spec_as_u32(),
    {
        LocalChannelCreate { id: id.0, peer_id, port, options: options.as_u32() }
    }
}

impl MessageTrait for LocalChannelCreate {
    /// Header of 48 total bytes, then channel number, identity, port and
    /// options.
    open spec fn spec_wire(v: LocalChannelCreateView) -> Seq<u8> {
        crate::util::message::spec_header_bytes(
            48,
            MessageType::CADET_LOCAL_CHANNEL_CREATE.code(),
        ) + be32(v.id) + v.peer_id + be32(v.port) + be32(v.options)
    }

    fn into_slice(&self) -> (r: Vec<u8>) {
        let mut out: Vec<u8> = Vec::new();
        MessageHeader::new(48, MessageType::CADET_LOCAL_CHANNEL_CREATE).encode(&mut out);
        push_u32_be(&mut out, self.id);
        push_bytes(&mut out, self.peer_id.bytes());
        push_u32_be(&mut out, self.port);
        push_u32_be(&mut out, self.options);
        proof {
            assert(out@ =~= LocalChannelCreate::spec_wire(self@));
        }
        out
    }
}

} // verus!
