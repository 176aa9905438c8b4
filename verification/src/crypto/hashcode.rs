//! The 512-bit hash code used to identify keys and egos.

use ::crypto::digest::Digest;
use vstd::prelude::*;

verus! {

/// The SHA-512 digest of a byte sequence; always 64 bytes.
pub uninterp spec fn sha512_of(b: Seq<u8>) -> Seq<u8>;

/// Relies on `crypto::sha2::Sha512`: the digest is a function of the
/// input bytes alone, and always has 64 bytes.
#[verifier::external_body]
fn sha512(b: &[u8]) -> (r: [u8; 64])
    ensures
        r@ == sha512_of(b@),
{
    let mut h = ::crypto::sha2::Sha512::new();
    h.input(b);
    let mut out = [0u8; 64];
    h.result(&mut out);
    out
}

/// A 512-bit hash code.
#[derive(Copy, Clone)]
pub struct HashCode {
    /// The raw digest bytes.
    pub bits: [u8; 64],
}

impl HashCode {
    /// Hash a buffer: its SHA-512 digest.
    pub fn from_buffer(b: &[u8]) -> (r: HashCode)
        ensures
            r.bits@ == sha512_of(b@),
    {
        HashCode { bits: sha512(b) }
    }

    /// The raw digest bytes.
    pub fn bytes(&self) -> (r: &[u8])
        ensures
            r@ == self.bits@,
    {
        vstd::array::array_as_slice(&self.bits)
    }

    /// Whether two hash codes hold the same digest.
    pub fn same_as(&self, other: &HashCode) -> (r: bool)
        ensures
            r == (self.bits@ == other.bits@),
    {
        let mut i: usize = 0;
        while i < 64
            invariant
                i <= 64,
                self.bits@.len() == 64,
                other.bits@.len() == 64,
                forall|j: int| 0 <= j < i ==> self.bits@[j] == other.bits@[j],
            decreases 64 - i,
        {
            if self.bits[i] != other.bits[i] {
                return false;
            }
            i += 1;
        }
        proof {
            assert(self.bits@ =~= other.bits@);
        }
        true
    }
}

} // verus!
