//! A 256-bit EdDSA public key: the compressed point, 32 raw bytes.

use crate::util::serial::bytes_to_array32;
use vstd::prelude::*;

verus! {

/// A 256-bit EdDSA public key.
#[derive(Copy, Clone, Debug)]
pub struct EddsaPublicKey {
    /// Point Q in compressed representation.
    pub q_y: [u8; 32],
}

impl EddsaPublicKey {
    /// The raw key bytes.
    pub fn bytes(&self) -> (r: &[u8])
        ensures
            r@ == self.q_y@,
    {
        vstd::array::array_as_slice(&self.q_y)
    }

    /// A key from its raw bytes: exactly 32 of them.
    pub fn from_bytes(b: &[u8]) -> (r: Option<Self>)
        ensures
            match r {
                Some(k) => b@.len() == 32 && k.q_y@ == b@,
                None => b@.len() != 32,
            },
    {
        if b.len() == 32 {
            Some(EddsaPublicKey { q_y: bytes_to_array32(b) })
        } else {
            None
        }
    }
}

impl Default for EddsaPublicKey {
    /// The all-zero key.
    fn default() -> (r: Self)
        ensures
            r.q_y@ == Seq::<u8>::new(32, |i: int| 0u8),
    {
        let z = vstd::array::array_fill_for_copy_types::<u8, 32>(0u8);
        proof {
            assert(z@ =~= Seq::<u8>::new(32, |i: int| 0u8));
        }
        EddsaPublicKey { q_y: z }
    }
}

} // verus!
