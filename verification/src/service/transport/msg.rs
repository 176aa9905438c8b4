//! Messages of the transport service.

use crate::util::message::MessageHeader;
use crate::util::message::MessageTrait;
use crate::util::message_type::MessageType;
use crate::util::peerid::PeerIdentity;
use crate::util::serial::be32;
use crate::util::serial::push_bytes;
use crate::util::serial::push_u32_be;
use vstd::prelude::*;

verus! {

/// The fields of a `Start` message, as specification values.
pub ghost struct StartView {
    /// Option bits handed to the service.
    pub options: u32,
    /// Our own identity: 32 key bytes.
    pub myself: Seq<u8>,
}

/// The session-start message: the first message sent to the transport
/// service; the service answers with our own HELLO.
pub struct Start {
    options: u32,
    myself: PeerIdentity,
}

impl View for Start {
    type V = StartView;

    closed spec fn view(&self) -> StartView {
        StartView { options: self.options, myself: self.myself.spec_bytes() }
    }
}

impl Start {
    /// A start message with the given options and identity.
    pub fn new(options: u32, peer: PeerIdentity) -> (r: Start)
        ensures
            r@.options == options,
            r@.myself == peer.spec_bytes(),
    {
        Start { options, myself: peer }
    }
}

impl MessageTrait for Start {
    /// Header of 40 total bytes, then options, then the identity.
    open spec fn spec_wire(v: StartView) -> Seq<u8> {
        crate::util::message::spec_header_bytes(40, MessageType::TRANSPORT_START.code()) + be32(
            v.options,
        ) + v.myself
    }

    fn into_slice(&self) -> (r: Vec<u8>) {
        let mut out: Vec<u8> = Vec::new();
        MessageHeader::new(40, MessageType::TRANSPORT_START).encode(&mut out);
        push_u32_be(&mut out, self.options);
        push_bytes(&mut out, self.myself.bytes());
        proof {
            assert(out@ =~= Start::spec_wire(self@));
        }
        out
    }
}

} // verus!
