//! 256-bit ECDSA keys: raw 32-byte values with their text encoding and
//! the derivation of the public key from the private one.

use crate::crypto::hashcode::HashCode;
use crate::util::serial::bytes_to_array32;
use crate::util::strings::crockford_base32_decode;
use crate::util::strings::crockford_base32_encode;
use crate::util::strings::crockford_encoding;
use vstd::prelude::*;

verus! {

/// What the curve library answers for the 32 little-endian scalar bytes
/// `d`: a function of the scalar alone.  For scalars whose top byte is at
/// most 127 this is the compressed point of `d * B`.
pub uninterp spec fn scalarmult_base_of(d: Seq<u8>) -> Seq<u8>;

/// Relies on `crypto::curve25519::ge_scalarmult_base`: deterministic in
/// the 32 scalar bytes, and total — it never panics on any 32-byte
/// input.  Its result is the compressed point of `d * B` for scalars
/// within the range the curve library documents.
#[verifier::external_body]
fn scalarmult_base(d: &[u8; 32]) -> (r: [u8; 32])
    ensures
        r@ == scalarmult_base_of(d@),
{
    ::crypto::curve25519::ge_scalarmult_base(&d[..]).to_bytes()
}

/// A 256-bit ECDSA public key.
#[derive(Copy, Clone)]
pub struct EcdsaPublicKey {
    data: [u8; 32],
}

impl EcdsaPublicKey {
    /// The raw key bytes.
    pub closed spec fn spec_bytes(self) -> Seq<u8> {
        self.data@
    }

    /// Compute the hash of this key.
    pub fn hash(&self) -> (r: HashCode)
        ensures
            r.bits@ == crate::crypto::hashcode::sha512_of(self.spec_bytes()),
    {
        HashCode::from_buffer(self.bytes())
    }

    /// The raw key bytes.
    pub fn bytes(&self) -> (r: &[u8])
        ensures
            r@ == self.spec_bytes(),
    {
        vstd::array::array_as_slice(&self.data)
    }

    /// A key from its raw bytes: exactly 32 of them.
    pub fn from_bytes(b: &[u8]) -> (r: Option<Self>)
        ensures
            match r {
                Some(k) => b@.len() == 32 && k.spec_bytes() == b@,
                None => b@.len() != 32,
            },
    {
        if b.len() == 32 {
            Some(EcdsaPublicKey { data: bytes_to_array32(b) })
        } else {
            None
        }
    }

    /// The Crockford base32 text of this key.
    pub fn to_text(&self) -> (r: String)
        ensures
            r@ == crockford_encoding(self.spec_bytes()),
    {
        crockford_base32_encode(self.bytes())
    }
}

/// Error parsing the text form of an ECDSA public key.
#[derive(Debug)]
pub enum EcdsaPublicKeyFromStrError {
    /// The text is not Crockford base32.
    DecodeFailed,
    /// The text decodes, but not to the 32 bytes of a key.
    WrongLen {
        /// The number of bytes the text decodes to.
        len: usize,
    },
}

impl core::str::FromStr for EcdsaPublicKey {
    type Err = EcdsaPublicKeyFromStrError;

    fn from_str(s: &str) -> Result<Self, EcdsaPublicKeyFromStrError> {
        match crockford_base32_decode(s) {
            None => Err(EcdsaPublicKeyFromStrError::DecodeFailed),
            Some(b) => match Self::from_bytes(b.as_slice()) {
                Some(k) => Ok(k),
                None => Err(EcdsaPublicKeyFromStrError::WrongLen { len: b.len() }),
            },
        }
    }
}

/// A 256-bit ECDSA private key: the scalar, big-endian.
#[derive(Copy, Clone)]
pub struct EcdsaPrivateKey {
    data: [u8; 32],
}

impl EcdsaPrivateKey {
    /// The raw scalar bytes, big-endian.
    pub closed spec fn spec_bytes(self) -> Seq<u8> {
        self.data@
    }

    /// The raw scalar bytes.
    pub fn bytes(&self) -> (r: &[u8])
        ensures
            r@ == self.spec_bytes(),
    {
        vstd::array::array_as_slice(&self.data)
    }

    /// A key from its raw bytes: exactly 32 of them.
    pub fn from_bytes(b: &[u8]) -> (r: Option<Self>)
        ensures
            match r {
                Some(k) => b@.len() == 32 && k.spec_bytes() == b@,
                None => b@.len() != 32,
            },
    {
        if b.len() == 32 {
            Some(EcdsaPrivateKey { data: bytes_to_array32(b) })
        } else {
            None
        }
    }

    /// Get the corresponding public key to this private key.
    ///
    /// The scalar is stored big-endian; the curve routine expects it
    /// little-endian, so the bytes are reversed before the multiplication.
    pub fn get_public(&self) -> (r: EcdsaPublicKey)
        ensures
            r.spec_bytes() == scalarmult_base_of(
                Seq::new(32, |i: int| self.spec_bytes()[31 - i]),
            ),
    {
        let mut rev: Vec<u8> = Vec::new();
        let mut i: usize = 0;
        while i < 32
            invariant
                i <= 32,
                self.data@.len() == 32,
                rev@.len() == i,
                forall|j: int| 0 <= j < i ==> rev@[j] == self.data@[31 - j],
            decreases 32 - i,
        {
            rev.push(self.data[31 - i]);
            i += 1;
        }
        let rev32 = bytes_to_array32(rev.as_slice());
        proof {
            assert(rev32@ =~= Seq::new(32, |i: int| self.data@[31 - i]));
        }
        EcdsaPublicKey { data: scalarmult_base(&rev32) }
    }

    /// The private key of the global, anonymous user: the fixed scalar
    /// one.
    pub fn anonymous() -> (r: EcdsaPrivateKey)
        ensures
            r.spec_bytes() == Seq::new(32, |i: int| if i == 31 { 1u8 } else { 0u8 }),
    {
        let mut b: Vec<u8> = Vec::new();
        let mut i: usize = 0;
        while i < 31
            invariant
                i <= 31,
                b@.len() == i,
                forall|j: int| 0 <= j < i ==> b@[j] == 0u8,
            decreases 31 - i,
        {
            b.push(0u8);
            i += 1;
        }
        b.push(1u8);
        let data = bytes_to_array32(b.as_slice());
        proof {
            assert(data@ =~= Seq::new(32, |i: int| if i == 31 { 1u8 } else { 0u8 }));
        }
        EcdsaPrivateKey { data }
    }

    /// The all-zero key, used on the wire where no key is handed along.
    pub fn zeros() -> (r: EcdsaPrivateKey)
        ensures
            r.spec_bytes() == Seq::new(32, |i: int| 0u8),
    {
        let z = [0u8; 32];
        proof {
            assert(z@ =~= Seq::new(32, |i: int| 0u8));
        }
        EcdsaPrivateKey { data: z }
    }
}

} // verus!
