//! Listing peers known to the peerinfo service: the peer identity in its
//! wire layout and the fold over the service's answer stream.

use crate::hello::Hello;
use crate::ll::Struct_GNUNET_PeerIdentity;
use crate::service::connection::ReadMessageError;
use crate::util::io::ByteReader;
use crate::util::message_type::MessageType;
use crate::util::serial::be32_val;
use crate::util::serial::bytes_to_array32;
use crate::util::serial::push_bytes;
use vstd::prelude::*;
use vstd::slice::slice_subrange;

verus! {

/// The identity of a peer, in the wire layout.
#[derive(Copy, Clone)]
pub struct PeerIdentity {
    data: Struct_GNUNET_PeerIdentity,
}

impl PeerIdentity {
    /// The 32 raw key bytes of the identity.
    pub closed spec fn spec_bytes(self) -> Seq<u8> {
        self.data.public_key.q_y@
    }

    /// Read an identity from the front of a buffer: its 32 key bytes.
    /// `None` where fewer than 32 bytes are present.
    pub fn deserialize(b: &[u8]) -> (r: Option<(PeerIdentity, &[u8])>)
        ensures
            match r {
                Some((p, rest)) => b@.len() >= 32 && p.spec_bytes() == b@.subrange(0, 32) && rest@
                    == b@.subrange(32, b@.len() as int),
                None => b@.len() < 32,
            },
    {
        if b.len() < 32 {
            return None;
        }
        let (head, rest) = b.split_at(32);
        let q_y = bytes_to_array32(head);
        Some(
            (
                PeerIdentity {
                    data: Struct_GNUNET_PeerIdentity {
                        public_key: crate::ll::Struct_GNUNET_CRYPTO_EddsaPublicKey { q_y },
                    },
                },
                rest,
            ),
        )
    }

    /// Append the identity's wire form: its 32 key bytes.
    pub fn serialize(&self, out: &mut Vec<u8>)
        ensures
            final(out)@ == old(out)@ + self.spec_bytes(),
    {
        push_bytes(out, vstd::array::array_as_slice(&self.data.public_key.q_y));
    }
}

/// Error listing peers.
#[derive(Debug)]
pub enum PeerInfoError {
    /// The response from the service was incoherent.
    InvalidResponse,
    /// The service sent an unexpected message kind.
    UnexpectedMessageType {
        /// The kind actually received.
        ty: u16,
    },
    /// An I/O error talking to the service.
    Io {
        /// The underlying error.
        cause: std::io::Error,
    },
    /// The response could not be received.
    ReadMessage {
        /// The underlying error.
        cause: ReadMessageError,
    },
    /// The service disconnected unexpectedly.
    Disconnected,
    /// The connection could not be established.
    Connect {
        /// The underlying error.
        cause: crate::service::connection::ConnectError,
    },
}

/// Decide on one message of a peer listing: the information message
/// carries a zero word and the peer's identity, the end message closes
/// the listing (`None`), anything else is unexpected.
pub fn parse_peer(tpe: u16, body: &[u8]) -> (r: Result<
    Option<(PeerIdentity, Option<Hello>)>,
    PeerInfoError,
>)
    ensures
        match r {
            Ok(Some((p, h))) => {
                &&& MessageType::from_code(tpe) == Some(MessageType::PEERINFO_INFO)
                &&& body@.len() >= 36
                &&& be32_val(body@.subrange(0, 4)) == 0
                &&& p.spec_bytes() == body@.subrange(4, 36)
                &&& h is None
            },
            Ok(None) => MessageType::from_code(tpe) == Some(MessageType::PEERINFO_INFO_END),
            Err(PeerInfoError::InvalidResponse) => MessageType::from_code(tpe) == Some(
                MessageType::PEERINFO_INFO,
            ) && body@.len() >= 4 && be32_val(body@.subrange(0, 4)) != 0,
            Err(PeerInfoError::Disconnected) => MessageType::from_code(tpe) == Some(
                MessageType::PEERINFO_INFO,
            ) && body@.len() < 36,
            Err(PeerInfoError::UnexpectedMessageType { ty }) => ty == tpe
                && MessageType::from_code(tpe) != Some(MessageType::PEERINFO_INFO)
                && MessageType::from_code(tpe) != Some(MessageType::PEERINFO_INFO_END),
            _ => false,
        },
{
    match MessageType::from_u16(tpe) {
        Some(MessageType::PEERINFO_INFO) => {
            let mut reader = ByteReader::new(body);
            let word = match reader.read_u32_be() {
                Some(w) => w,
                None => {
                    return Err(PeerInfoError::Disconnected);
                },
            };
            if word != 0 {
                return Err(PeerInfoError::InvalidResponse);
            }
            if body.len() < 36 {
                return Err(PeerInfoError::Disconnected);
            }
            match PeerIdentity::deserialize(slice_subrange(body, 4, body.len())) {
                Some((p, _rest)) => {
                    proof {
                        assert(body@.subrange(4, body@.len() as int).subrange(0, 32)
                            =~= body@.subrange(4, 36));
                    }
                    Ok(Some((p, None)))
                },
                None => Err(PeerInfoError::Disconnected),
            }
        },
        Some(MessageType::PEERINFO_INFO_END) => Ok(None),
        _ => Err(PeerInfoError::UnexpectedMessageType { ty: tpe }),
    }
}

/// The key bytes of each collected peer, in arrival order.
pub open spec fn peer_views(s: Seq<(PeerIdentity, Option<Hello>)>) -> Seq<Seq<u8>> {
    s.map_values(|e: (PeerIdentity, Option<Hello>)| e.0.spec_bytes())
}

/// The peers collected from a listing, message by message.
pub struct Peers {
    collected: Vec<(PeerIdentity, Option<Hello>)>,
    done: bool,
}

impl Peers {
    /// The key bytes of the peers collected so far, in arrival order.
    pub closed spec fn spec_peers(self) -> Seq<Seq<u8>> {
        peer_views(self.collected@)
    }

    /// How many peers have been collected.
    pub open spec fn spec_count(self) -> nat {
        self.spec_peers().len()
    }

    /// Whether the end of the listing has been seen.
    pub closed spec fn spec_done(self) -> bool {
        self.done
    }

    /// An empty, unfinished listing.
    pub fn new() -> (r: Peers)
        ensures
            r.spec_peers() == Seq::<Seq<u8>>::empty(),
            !r.spec_done(),
    {
        let r = Peers { collected: Vec::new(), done: false };
        proof {
            assert(r.spec_peers() =~= Seq::<Seq<u8>>::empty());
        }
        r
    }

    /// Fold one received message into the listing: an information message
    /// appends its peer, the end message completes the listing.  Answers
    /// whether the listing is complete; an error leaves it as it was.
    pub fn absorb(&mut self, tpe: u16, body: &[u8]) -> (r: Result<bool, PeerInfoError>)
        requires
            !old(self).spec_done(),
        ensures
            match r {
                Ok(true) => {
                    &&& MessageType::from_code(tpe) == Some(MessageType::PEERINFO_INFO_END)
                    &&& final(self).spec_done()
                    &&& final(self).spec_peers() == old(self).spec_peers()
                },
                Ok(false) => {
                    &&& MessageType::from_code(tpe) == Some(MessageType::PEERINFO_INFO)
                    &&& body@.len() >= 36
                    &&& be32_val(body@.subrange(0, 4)) == 0
                    &&& !final(self).spec_done()
                    &&& final(self).spec_peers() == old(self).spec_peers().push(
                        body@.subrange(4, 36),
                    )
                },
                Err(_) => *final(self) == *old(self),
            },
    {
        match parse_peer(tpe, body) {
            Ok(Some(entry)) => {
                let ghost pre = self.collected@;
                let ghost id_bytes = entry.0.spec_bytes();
                self.collected.push(entry);
                proof {
                    assert(peer_views(self.collected@) =~= peer_views(pre).push(id_bytes));
                }
                Ok(false)
            },
            Ok(None) => {
                self.done = true;
                Ok(true)
            },
            Err(e) => Err(e),
        }
    }

    /// The collected peers, giving up the listing.
    pub fn into_vec(self) -> (r: Vec<(PeerIdentity, Option<Hello>)>)
        ensures
            peer_views(r@) == self.spec_peers(),
    {
        self.collected
    }
}

} // verus!
