//! Peer identity with its raw wire form: exactly the 32 key bytes.

use crate::crypto::eddsa::EddsaPublicKey;
use vstd::prelude::*;

verus! {

/// The identity of a peer.
#[derive(Copy, Clone, Debug)]
pub struct PeerIdentity {
    public_key: EddsaPublicKey,
}

impl PeerIdentity {
    /// The 32 raw key bytes of the identity.
    pub closed spec fn spec_bytes(self) -> Seq<u8> {
        self.public_key.q_y@
    }

    /// Read an identity from the front of a buffer: its 32 key bytes.
    /// The rest of the buffer follows.  `None` where fewer than 32 bytes
    /// are present.
    pub fn deserialize(b: &[u8]) -> (r: Option<(PeerIdentity, &[u8])>)
        ensures
            match r {
                Some((p, rest)) => b@.len() >= 32 && p.spec_bytes() == b@.subrange(0, 32) && rest@
                    == b@.subrange(32, b@.len() as int),
                None => b@.len() < 32,
            },
    {
        if b.len() < 32 {
            return None;
        }
        let (head, rest) = b.split_at(32);
        match EddsaPublicKey::from_bytes(head) {
            Some(public_key) => Some((PeerIdentity { public_key }, rest)),
            None => None,
        }
    }

    /// Read an identity off the front of a reader: its 32 key bytes.
    /// `None`, with nothing consumed, where fewer than 32 bytes are left.
    pub fn deserialize_reader(r: &mut crate::util::io::ByteReader) -> (res: Option<PeerIdentity>)
        ensures
            match res {
                Some(p) => old(r).spec_remaining().len() >= 32 && p.spec_bytes() == old(
                    r,
                ).spec_remaining().subrange(0, 32) && final(r).spec_remaining() == old(
                    r,
                ).spec_remaining().subrange(32, old(r).spec_remaining().len() as int),
                None => old(r).spec_remaining().len() < 32 && final(r).spec_remaining() == old(
                    r,
                ).spec_remaining(),
            },
    {
        let bytes = match crate::util::io::ReadUtil::read_exact_alloc(r, 32) {
            Some(b) => b,
            None => {
                return None;
            },
        };
        match EddsaPublicKey::from_bytes(bytes.as_slice()) {
            Some(public_key) => Some(PeerIdentity { public_key }),
            None => {
                proof {
                    assert(bytes@.len() == 32);
                    assert(false);
                }
                None
            },
        }
    }

    /// Append the identity's wire form: its 32 key bytes.
    pub fn serialize(&self, out: &mut Vec<u8>)
        ensures
            final(out)@ == old(out)@ + self.spec_bytes(),
    {
        let mut i: usize = 0;
        while i < 32
            invariant
                i <= 32,
                self.public_key.q_y@.len() == 32,
                out@ == old(out)@ + self.public_key.q_y@.subrange(0, i as int),
            decreases 32 - i,
        {
            out.push(self.public_key.q_y[i]);
            i += 1;
            assert(out@ =~= old(out)@ + self.public_key.q_y@.subrange(0, i as int));
        }
        proof {
            assert(self.public_key.q_y@.subrange(0, 32) =~= self.spec_bytes());
        }
    }
}

/// Error parsing the text form of a peer identity.
#[derive(Debug)]
pub enum PeerIdentityFromStrError {
    /// The text does not denote a peer identity.
    ParsingFailed,
}

impl core::str::FromStr for PeerIdentity {
    type Err = PeerIdentityFromStrError;

    fn from_str(s: &str) -> Result<PeerIdentity, PeerIdentityFromStrError> {
        match crate::util::strings::crockford_base32_decode(s) {
            None => Err(PeerIdentityFromStrError::ParsingFailed),
            Some(b) => match EddsaPublicKey::from_bytes(b.as_slice()) {
                Some(public_key) => Ok(PeerIdentity { public_key }),
                None => Err(PeerIdentityFromStrError::ParsingFailed),
            },
        }
    }
}

} // verus!
