//! The minimal HELLO: the friend-only flag and the peer's identity.

use crate::crypto::peerid::PeerIdentity;
use crate::util::io::ByteReader;
use crate::util::serial::be32_val;
use vstd::prelude::*;

verus! {

/// A HELLO reduced to its fixed prefix.
#[derive(Debug)]
pub struct Hello {
    /// Use this peer in friend-to-friend mode only; do not gossip this
    /// HELLO.
    pub friend_only: bool,
    /// The identity of the peer.
    pub id: PeerIdentity,
}

/// Error reading a HELLO.
#[derive(Debug)]
pub enum HelloDeserializeError {
    /// The data ended before the HELLO was complete.
    ShortMessage,
    /// An I/O error while reading the HELLO.
    Io {
        /// The underlying error.
        source: std::io::Error,
    },
}

impl Hello {
    /// Read a HELLO prefix — a 32-bit friend-only flag, then the 32-byte
    /// identity — off the front of a reader.
    pub fn deserialize(r: &mut ByteReader) -> (res: Result<Hello, HelloDeserializeError>)
        ensures
            ({
                let pre = old(r).spec_remaining();
                match res {
                    Ok(h) => {
                        &&& pre.len() >= 36
                        &&& h.friend_only == (be32_val(pre.subrange(0, 4)) != 0)
                        &&& h.id.spec_bytes() == pre.subrange(4, 36)
                        &&& final(r).spec_remaining() == pre.subrange(36, pre.len() as int)
                    },
                    Err(HelloDeserializeError::ShortMessage) => pre.len() < 36
                        && final(r).spec_remaining() == pre,
                    Err(HelloDeserializeError::Io { .. }) => false,
                }
            }),
    {
        let ghost pre = r.spec_remaining();
        let mut probe = *r;
        let word = match probe.read_u32_be() {
            Some(w) => w,
            None => {
                return Err(HelloDeserializeError::ShortMessage);
            },
        };
        if probe.remaining() < 32 {
            return Err(HelloDeserializeError::ShortMessage);
        }
        let id = match PeerIdentity::deserialize_reader(&mut probe) {
            Some(id) => id,
            None => {
                return Err(HelloDeserializeError::ShortMessage);
            },
        };
        proof {
            assert(pre.subrange(4, pre.len() as int).subrange(0, 32) =~= pre.subrange(4, 36));
            assert(pre.subrange(4, pre.len() as int).subrange(32, pre.len() - 4) =~= pre.subrange(
                36,
                pre.len() as int,
            ));
        }
        *r = probe;
        Ok(Hello { friend_only: word != 0, id })
    }
}

} // verus!
