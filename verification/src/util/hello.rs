//! The HELLO message: a peer's identity and the list of addresses its
//! transports can be reached at.
//!
//! The body is a fixed prefix — friend-only flag and peer identity —
//! followed by any number of addresses, each written as a NUL-terminated
//! transport name, a 16-bit address length, a 64-bit expiration time, and
//! that many address bytes.  Parsing is bounds-checked throughout: a
//! declared length that would read past the end of the buffer fails the
//! parse, it never reads out of bounds.

use crate::util::message::MessageIn;
use crate::util::message_type::MessageType;
use crate::util::peerid::PeerIdentity;
use crate::util::serial::be16_val;
use crate::util::serial::be32_val;
use crate::util::serial::be64_val;
use crate::util::serial::lemma_first_nul_at;
use crate::util::serial::lemma_first_nul_props;
use crate::util::serial::parse_leading_cstr;
use crate::util::serial::read_u16_be;
use crate::util::serial::read_u32_be;
use crate::util::serial::read_u64_be;
use crate::util::serial::spec_first_nul;
use crate::util::time::Absolute;
use vstd::prelude::*;
use vstd::slice::slice_subrange;
use vstd::slice::slice_to_vec;
use vstd::string::StringExecFns;
use vstd::utf8::decode_utf8;
use vstd::utf8::valid_utf8;

verus! {

/// One address of a HELLO, as specification values.
pub ghost struct HelloAddressView {
    /// Name of the transport the address belongs to.
    pub transport_name: Seq<char>,
    /// Expiration of the address, microseconds since the epoch.
    pub expiration: u64,
    /// The transport-specific address bytes.
    pub address: Seq<u8>,
}

/// One address carried by a HELLO message.
#[derive(Debug)]
pub struct HelloAddress {
    /// Name of the transport the address belongs to.
    pub transport_name: String,
    /// When the address expires.
    pub expiration: Absolute,
    /// Binary representation of the address (plugin-specific).
    pub address: Vec<u8>,
}

impl View for HelloAddress {
    type V = HelloAddressView;

    open spec fn view(&self) -> HelloAddressView {
        HelloAddressView {
            transport_name: self.transport_name@,
            expiration: self.expiration.spec_micros(),
            address: self.address@,
        }
    }
}

/// The views of a list of addresses.
pub open spec fn addr_views(s: Seq<HelloAddress>) -> Seq<HelloAddressView> {
    s.map_values(|a: HelloAddress| a@)
}

/// Parse one address off the front of `b`: NUL-terminated transport name,
/// 16-bit address length, 64-bit expiration, address bytes.  `None` where
/// any piece is missing, over-long or malformed.
pub open spec fn spec_parse_one_address(b: Seq<u8>) -> Option<(HelloAddressView, Seq<u8>)> {
    match spec_first_nul(b) {
        None => None,
        Some(i) => if i == 0 {
            None
        } else if !valid_utf8(b.subrange(0, i)) {
            None
        } else {
            let rest = b.subrange(i + 1, b.len() as int);
            if rest.len() < 2 {
                None
            } else {
                let alen = be16_val(rest.subrange(0, 2)) as int;
                if rest.len() - 2 < 8 {
                    None
                } else {
                    let expiration = be64_val(rest.subrange(2, 10));
                    if rest.len() - 10 < alen {
                        None
                    } else {
                        Some(
                            (
                                HelloAddressView {
                                    transport_name: decode_utf8(b.subrange(0, i)),
                                    expiration,
                                    address: rest.subrange(10, 10 + alen),
                                },
                                rest.subrange(10 + alen, rest.len() as int),
                            ),
                        )
                    }
                }
            }
        },
    }
}

/// Parsing one address consumes at least one byte.
proof fn lemma_parse_one_address_consumes(b: Seq<u8>)
    ensures
        spec_parse_one_address(b) matches Some(r) ==> r.1.len() < b.len(),
{
    lemma_first_nul_props(b);
}

/// Parse the whole address list: addresses back to back until the buffer
/// is empty.
pub open spec fn spec_parse_addresses(b: Seq<u8>) -> Option<Seq<HelloAddressView>>
    decreases b.len(),
    via spec_parse_addresses_dec
{
    if b.len() == 0 {
        Some(seq![])
    } else {
        match spec_parse_one_address(b) {
            None => None,
            Some((a, rest)) => match spec_parse_addresses(rest) {
                None => None,
                Some(more) => Some(seq![a] + more),
            },
        }
    }
}

#[via_fn]
proof fn spec_parse_addresses_dec(b: Seq<u8>) {
    lemma_parse_one_address_consumes(b);
}

/// The fields of a HELLO message, as specification values.
pub ghost struct HelloView {
    /// Nonzero when the peer is to be used in friend-to-friend mode only.
    pub friend_only: u32,
    /// The peer's identity: 32 key bytes.
    pub id: Seq<u8>,
    /// The addresses the peer can be reached at.
    pub addresses: Seq<HelloAddressView>,
}

/// A HELLO message: used to exchange information about transports with
/// other peers.
#[derive(Debug)]
pub struct HelloMessage {
    friend_only: u32,
    id: PeerIdentity,
    /// The addresses the peer can be reached at.
    pub addresses: Vec<HelloAddress>,
}

/// A `HelloMessage` owning its buffers.
pub type Hello = HelloMessage;

impl View for HelloMessage {
    type V = HelloView;

    closed spec fn view(&self) -> HelloView {
        HelloView {
            friend_only: self.friend_only,
            id: self.id.spec_bytes(),
            addresses: addr_views(self.addresses@),
        }
    }
}

impl HelloMessage {
    /// Whether the peer is to be used in friend-to-friend mode only: do
    /// not gossip this HELLO.
    pub fn friend_only(&self) -> (r: bool)
        ensures
            r == (self@.friend_only != 0),
    {
        self.friend_only != 0
    }

    /// The identity of the peer.
    pub fn peer_id(&self) -> (r: &PeerIdentity)
        ensures
            r.spec_bytes() == self@.id,
    {
        &self.id
    }

    /// Parse a HELLO that is embedded inside another message together
    /// with its own four-byte envelope header: the header is skipped, the
    /// rest is the body.
    pub fn from_bytes_with_header(b: &[u8]) -> (r: Option<HelloMessage>)
        ensures
            match r {
                Some(m) => b@.len() >= 4 && Self::spec_parse(b@.subrange(4, b@.len() as int))
                    == Some(m@),
                None => b@.len() < 4 || Self::spec_parse(b@.subrange(4, b@.len() as int)) is None,
            },
    {
        if b.len() < 4 {
            return None;
        }
        let body = slice_subrange(b, 4, b.len());
        Self::from_bytes(body)
    }
}

impl MessageIn for HelloMessage {
    open spec fn spec_msg_type() -> MessageType {
        MessageType::HELLO
    }

    /// Fixed prefix — flag and identity — then the address list.
    open spec fn spec_parse(b: Seq<u8>) -> Option<HelloView> {
        if b.len() < 36 {
            None
        } else {
            match spec_parse_addresses(b.subrange(36, b.len() as int)) {
                None => None,
                Some(addresses) => Some(
                    HelloView {
                        friend_only: be32_val(b.subrange(0, 4)),
                        id: b.subrange(4, 36),
                        addresses,
                    },
                ),
            }
        }
    }

    fn msg_type() -> (t: MessageType) {
        MessageType::HELLO
    }

    fn from_bytes(b: &[u8]) -> (r: Option<Self>) {
        if b.len() < 36 {
            return None;
        }
        let friend_only = read_u32_be(b, 0);
        let id = match PeerIdentity::from_bytes(slice_subrange(b, 4, 36)) {
            Some(id) => id,
            None => {
                return None;
            },
        };
        let ghost tail0 = b@.subrange(36, b@.len() as int);
        let mut cur: &[u8] = slice_subrange(b, 36, b.len());
        let mut addresses: Vec<HelloAddress> = Vec::new();
        proof {
            assert(addr_views(addresses@) + spec_seq_opt(spec_parse_addresses(cur@))
                =~= spec_seq_opt(spec_parse_addresses(tail0)));
        }
        loop
            invariant
                b@.len() >= 36,
                tail0 == b@.subrange(36, b@.len() as int),
                friend_only == be32_val(b@.subrange(0, 4)),
                id.spec_bytes() == b@.subrange(4, 36),
                spec_parse_addresses(tail0) is Some <==> spec_parse_addresses(cur@) is Some,
                spec_parse_addresses(tail0) is Some ==> spec_parse_addresses(tail0)
                    == Some(addr_views(addresses@) + spec_parse_addresses(cur@).unwrap()),
            decreases cur@.len(),
        {
            if cur.len() == 0 {
                proof {
                    assert(addr_views(addresses@) + spec_parse_addresses(cur@).unwrap()
                        =~= addr_views(addresses@));
                }
                return Some(HelloMessage { friend_only, id, addresses });
            }
            let (name, rest) = match parse_leading_cstr(cur) {
                Some(p) => p,
                None => {
                    proof {
                        lemma_first_nul_props(cur@);
                    }
                    return None;
                },
            };
            let ghost i = cur@.len() - rest@.len() - 1;
            proof {
                lemma_first_nul_at(cur@, i);
            }
            if rest.len() < 2 {
                return None;
            }
            let alen = read_u16_be(rest, 0) as usize;
            if rest.len() - 2 < 8 {
                return None;
            }
            let expiration = read_u64_be(rest, 2);
            if rest.len() - 10 < alen {
                return None;
            }
            let address = slice_to_vec(slice_subrange(rest, 10, 10 + alen));
            let next = slice_subrange(rest, 10 + alen, rest.len());
            let addr = HelloAddress {
                transport_name: name.to_owned(),
                expiration: Absolute::from_micros(expiration),
                address,
            };
            proof {
                assert(rest@.subrange(0, 2) =~= cur@.subrange(i + 1, cur@.len() as int).subrange(
                    0,
                    2,
                ));
                assert(rest@.subrange(2, 10) =~= cur@.subrange(i + 1, cur@.len() as int).subrange(
                    2,
                    10,
                ));
                assert(address@ =~= cur@.subrange(i + 1, cur@.len() as int).subrange(
                    10,
                    10 + alen,
                ));
                assert(next@ =~= cur@.subrange(i + 1, cur@.len() as int).subrange(
                    10 + alen,
                    cur@.len() - i - 1,
                ));
                assert(spec_parse_one_address(cur@) == Some((addr@, next@)));
                assert(addr_views(addresses@.push(addr)) =~= addr_views(addresses@).push(addr@));
                if spec_parse_addresses(tail0) is Some {
                    assert(addr_views(addresses@).push(addr@) + spec_parse_addresses(
                        next@,
                    ).unwrap() =~= addr_views(addresses@) + (seq![addr@] + spec_parse_addresses(
                        next@,
                    ).unwrap()));
                }
            }
            addresses.push(addr);
            cur = next;
        }
    }
}

/// A body shorter than the fixed 36-byte prefix never parses as a HELLO,
/// whatever it holds.
pub proof fn lemma_hello_short_body(b: Seq<u8>)
    requires
        b.len() < 36,
    ensures
        HelloMessage::spec_parse(b) is None,
{
}

/// The sequence inside an optional sequence, empty for `None`.
pub open spec fn spec_seq_opt(o: Option<Seq<HelloAddressView>>) -> Seq<HelloAddressView> {
    match o {
        Some(s) => s,
        None => seq![],
    }
}

} // verus!
