//! The identity of a peer: its EdDSA public key, with a Crockford base32
//! text form.

use crate::crypto::eddsa::EddsaPublicKey;
use crate::util::strings::crockford_base32_decode;
use crate::util::strings::crockford_base32_encode;
use crate::util::strings::crockford_encoding;
use vstd::prelude::*;

verus! {

/// The identity of a peer.
#[derive(Copy, Clone, Debug)]
pub struct PeerIdentity {
    public_key: EddsaPublicKey,
}

impl PeerIdentity {
    /// The 32 raw key bytes of the identity.
    pub closed spec fn spec_bytes(self) -> Seq<u8> {
        self.public_key.q_y@
    }

    /// An identity from its public key.
    pub fn from_public_key(public_key: EddsaPublicKey) -> (r: Self)
        ensures
            r.spec_bytes() == public_key.q_y@,
    {
        PeerIdentity { public_key }
    }

    /// The 32 raw key bytes.
    pub fn bytes(&self) -> (r: &[u8])
        ensures
            r@ == self.spec_bytes(),
    {
        self.public_key.bytes()
    }

    /// An identity from 32 raw key bytes.
    pub fn from_bytes(b: &[u8]) -> (r: Option<Self>)
        ensures
            match r {
                Some(p) => b@.len() == 32 && p.spec_bytes() == b@,
                None => b@.len() != 32,
            },
    {
        match EddsaPublicKey::from_bytes(b) {
            Some(public_key) => Some(PeerIdentity { public_key }),
            None => None,
        }
    }

    /// The Crockford base32 text of the identity.
    pub fn to_text(&self) -> (r: String)
        ensures
            r@ == crockford_encoding(self.spec_bytes()),
    {
        crockford_base32_encode(self.public_key.bytes())
    }
}

impl Default for PeerIdentity {
    /// The identity with the all-zero key.
    fn default() -> (r: Self)
        ensures
            r.spec_bytes() == Seq::<u8>::new(32, |i: int| 0u8),
    {
        PeerIdentity { public_key: EddsaPublicKey::default() }
    }
}

/// Error parsing the text form of a peer identity.
#[derive(Debug)]
pub enum PeerIdentityFromStrError {
    /// The text is not Crockford base32.
    DecodeFailed,
    /// The text decodes, but not to the 32 bytes of a key.
    WrongLen {
        /// The number of bytes the text decodes to.
        len: usize,
    },
}

impl core::str::FromStr for PeerIdentity {
    type Err = PeerIdentityFromStrError;

    fn from_str(s: &str) -> Result<Self, PeerIdentityFromStrError> {
        match crockford_base32_decode(s) {
            None => Err(PeerIdentityFromStrError::DecodeFailed),
            Some(b) => match EddsaPublicKey::from_bytes(b.as_slice()) {
                Some(public_key) => Ok(PeerIdentity { public_key }),
                None => Err(PeerIdentityFromStrError::WrongLen { len: b.len() }),
            },
        }
    }
}

} // verus!
