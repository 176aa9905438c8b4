//! Messages of the peerinfo service.

use crate::util::hello::HelloMessage;
use crate::util::hello::HelloView;
use crate::util::message::MessageHeader;
use crate::util::message::MessageIn;
use crate::util::message::MessageTrait;
use crate::util::message_type::MessageType;
use crate::util::peerid::PeerIdentity;
use crate::util::serial::be32;
use crate::util::serial::be32_val;
use crate::util::serial::push_bytes;
use crate::util::serial::push_u32_be;
use crate::util::serial::read_u32_be;
use vstd::prelude::*;
use vstd::slice::slice_subrange;

verus! {

/// The fields of a `ListPeer` request, as specification values.
pub ghost struct ListPeerView {
    /// Whether friend-only HELLOs are wanted too.
    pub include_friend_only: bool,
    /// The peer asked about: 32 key bytes.
    pub peer: Seq<u8>,
}

/// Ask the peerinfo service about one peer.
pub struct ListPeer {
    include_friend_only: bool,
    peer: PeerIdentity,
}

impl View for ListPeer {
    type V = ListPeerView;

    closed spec fn view(&self) -> ListPeerView {
        ListPeerView {
            include_friend_only: self.include_friend_only,
            peer: self.peer.spec_bytes(),
        }
    }
}

impl ListPeer {
    /// A request about the given peer.
    pub fn new(include_friend_only: bool, peer: PeerIdentity) -> (r: ListPeer)
        ensures
            r@.include_friend_only == include_friend_only,
            r@.peer == peer.spec_bytes(),
    {
        ListPeer { include_friend_only, peer }
    }
}

impl MessageTrait for ListPeer {
    /// Header of 40 total bytes, then the flag, then the identity.
    open spec fn spec_wire(v: ListPeerView) -> Seq<u8> {
        crate::util::message::spec_header_bytes(40, MessageType::PEERINFO_GET.code()) + be32(
            if v.include_friend_only {
                1u32
            } else {
                0u32
            },
        ) + v.peer
    }

    fn into_slice(&self) -> (r: Vec<u8>) {
        let mut out: Vec<u8> = Vec::new();
        MessageHeader::new(40, MessageType::PEERINFO_GET).encode(&mut out);
        push_u32_be(&mut out, if self.include_friend_only { 1 } else { 0 });
        push_bytes(&mut out, self.peer.bytes());
        proof {
            assert(out@ =~= ListPeer::spec_wire(self@));
        }
        out
    }
}

/// The fields of a `ListAllPeers` request, as specification values.
pub ghost struct ListAllPeersView {
    /// Whether friend-only HELLOs are wanted too.
    pub include_friend_only: bool,
}

/// Ask the peerinfo service about every known peer.
pub struct ListAllPeers {
    include_friend_only: bool,
}

impl View for ListAllPeers {
    type V = ListAllPeersView;

    closed spec fn view(&self) -> ListAllPeersView {
        ListAllPeersView { include_friend_only: self.include_friend_only }
    }
}

impl ListAllPeers {
    /// A request for the whole peer list.
    pub fn new(include_friend_only: bool) -> (r: ListAllPeers)
        ensures
            r@.include_friend_only == include_friend_only,
    {
        ListAllPeers { include_friend_only }
    }
}

impl MessageTrait for ListAllPeers {
    /// Header of 8 total bytes, then the flag.
    open spec fn spec_wire(v: ListAllPeersView) -> Seq<u8> {
        crate::util::message::spec_header_bytes(8, MessageType::PEERINFO_GET_ALL.code()) + be32(
            if v.include_friend_only {
                1u32
            } else {
                0u32
            },
        )
    }

    fn into_slice(&self) -> (r: Vec<u8>) {
        let mut out: Vec<u8> = Vec::new();
        MessageHeader::new(8, MessageType::PEERINFO_GET_ALL).encode(&mut out);
        push_u32_be(&mut out, if self.include_friend_only { 1 } else { 0 });
        proof {
            assert(out@ =~= ListAllPeers::spec_wire(self@));
        }
        out
    }
}

/// The fields of an `Info` response, as specification values.
pub ghost struct InfoView {
    /// Reserved word, always zero in practice.
    pub reserved: u32,
    /// The peer the information is about: 32 key bytes.
    pub peer_id: Seq<u8>,
    /// The peer's HELLO.
    pub hello: HelloView,
}

/// Information about one peer: its identity and its HELLO, which arrives
/// embedded with its own envelope header.
pub struct Info {
    /// Reserved word, always zero in practice.
    pub reserved: u32,
    /// The peer the information is about.
    pub peer_id: PeerIdentity,
    /// The peer's HELLO.
    pub hello: HelloMessage,
}

impl View for Info {
    type V = InfoView;

    open spec fn view(&self) -> InfoView {
        InfoView {
            reserved: self.reserved,
            peer_id: self.peer_id.spec_bytes(),
            hello: self.hello@,
        }
    }
}

impl Info {
    /// The identity and the HELLO, giving up the message.
    pub fn into_id_and_hello(self) -> (r: (PeerIdentity, HelloMessage))
        ensures
            r.0.spec_bytes() == self@.peer_id,
            r.1@ == self@.hello,
    {
        (self.peer_id, self.hello)
    }
}

impl MessageIn for Info {
    open spec fn spec_msg_type() -> MessageType {
        MessageType::PEERINFO_INFO
    }

    /// Reserved word, peer identity, then the embedded HELLO with its own
    /// envelope header.
    open spec fn spec_parse(b: Seq<u8>) -> Option<InfoView> {
        if b.len() < 40 {
            None
        } else {
            match HelloMessage::spec_parse(b.subrange(40, b.len() as int)) {
                None => None,
                Some(hello) => Some(
                    InfoView {
                        reserved: be32_val(b.subrange(0, 4)),
                        peer_id: b.subrange(4, 36),
                        hello,
                    },
                ),
            }
        }
    }

    fn msg_type() -> (t: MessageType) {
        MessageType::PEERINFO_INFO
    }

    fn from_bytes(b: &[u8]) -> (r: Option<Self>) {
        if b.len() < 40 {
            return None;
        }
        let reserved = read_u32_be(b, 0);
        let peer_id = match PeerIdentity::from_bytes(slice_subrange(b, 4, 36)) {
            Some(id) => id,
            None => {
                return None;
            },
        };
        let hello = match HelloMessage::from_bytes_with_header(slice_subrange(b, 36, b.len())) {
            Some(h) => h,
            None => {
                proof {
                    assert(b@.subrange(36, b@.len() as int).subrange(
                        4,
                        b@.len() - 36,
                    ) =~= b@.subrange(40, b@.len() as int));
                }
                return None;
            },
        };
        proof {
            assert(b@.subrange(36, b@.len() as int).subrange(4, b@.len() - 36) =~= b@.subrange(
                40,
                b@.len() as int,
            ));
        }
        Some(Info { reserved, peer_id, hello })
    }
}

/// The fields of an `InfoEnd` response: none.
pub ghost struct InfoEndView {
}

/// End of the list of peer information.
pub struct InfoEnd {
}

impl View for InfoEnd {
    type V = InfoEndView;

    closed spec fn view(&self) -> InfoEndView {
        InfoEndView {  }
    }
}

impl MessageIn for InfoEnd {
    open spec fn spec_msg_type() -> MessageType {
        MessageType::PEERINFO_INFO_END
    }

    /// An empty body.
    open spec fn spec_parse(b: Seq<u8>) -> Option<InfoEndView> {
        if b.len() == 0 {
            Some(InfoEndView {  })
        } else {
            None
        }
    }

    fn msg_type() -> (t: MessageType) {
        MessageType::PEERINFO_INFO_END
    }

    fn from_bytes(b: &[u8]) -> (r: Option<Self>) {
        if b.len() == 0 {
            Some(InfoEnd {  })
        } else {
            None
        }
    }
}

/// A body shorter than the fixed prefix and the embedded envelope never
/// parses as an `Info`, whatever it holds.
pub proof fn lemma_info_short_body(b: Seq<u8>)
    requires
        b.len() < 40,
    ensures
        Info::spec_parse(b) is None,
{
}

} // verus!
