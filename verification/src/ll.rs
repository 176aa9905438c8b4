//! Low-level record layouts mirroring the C structures of the wire
//! protocol.

use vstd::prelude::*;

verus! {

/// The longest name a lookup may carry, from the DNS parser limits.
pub const GNUNET_DNSPARSER_MAX_NAME_LENGTH: u16 = 253;

/// A 256-bit EdDSA public key as laid out on the wire.
#[allow(non_camel_case_types)]
#[derive(Copy, Clone)]
pub struct Struct_GNUNET_CRYPTO_EddsaPublicKey {
    /// Point Q in compressed representation.
    pub q_y: [u8; 32],
}

impl Default for Struct_GNUNET_CRYPTO_EddsaPublicKey {
    /// The all-zero key.
    fn default() -> (r: Self)
        ensures
            r.q_y@ == Seq::<u8>::new(32, |i: int| 0u8),
    {
        let z = [0u8; 32];
        proof {
            assert(z@ =~= Seq::<u8>::new(32, |i: int| 0u8));
        }
        Struct_GNUNET_CRYPTO_EddsaPublicKey { q_y: z }
    }
}

/// The identity of a peer as laid out on the wire: the public key alone.
#[allow(non_camel_case_types)]
#[derive(Copy, Clone)]
pub struct Struct_GNUNET_PeerIdentity {
    /// The peer's EdDSA public key.
    pub public_key: Struct_GNUNET_CRYPTO_EddsaPublicKey,
}

/// Flags a name system record may carry.
#[allow(non_camel_case_types)]
#[derive(Copy, Clone, Debug, PartialEq, Eq, Structural)]
pub enum Enum_GNUNET_GNSRECORD_Flags {
    /// No special options.
    GNUNET_GNSRECORD_RF_NONE,
    /// The record is not shared with other peers.
    GNUNET_GNSRECORD_RF_PRIVATE,
    /// The record is still pending.
    GNUNET_GNSRECORD_RF_PENDING,
    /// The expiration time is relative, not absolute.
    GNUNET_GNSRECORD_RF_RELATIVE_EXPIRATION,
    /// The record is a shadow record.
    GNUNET_GNSRECORD_RF_SHADOW_RECORD,
}

impl Enum_GNUNET_GNSRECORD_Flags {
    /// The bit of this flag in the 32-bit flag word.
    pub open spec fn spec_bit(self) -> u32 {
        match self {
            Enum_GNUNET_GNSRECORD_Flags::GNUNET_GNSRECORD_RF_NONE => 0,
            Enum_GNUNET_GNSRECORD_Flags::GNUNET_GNSRECORD_RF_PRIVATE => 2,
            Enum_GNUNET_GNSRECORD_Flags::GNUNET_GNSRECORD_RF_PENDING => 4,
            Enum_GNUNET_GNSRECORD_Flags::GNUNET_GNSRECORD_RF_RELATIVE_EXPIRATION => 8,
            Enum_GNUNET_GNSRECORD_Flags::GNUNET_GNSRECORD_RF_SHADOW_RECORD => 16,
        }
    }

    /// The bit of this flag in the 32-bit flag word.
    pub fn bit(&self) -> (r: u32)
        ensures
            r == self.spec_bit(),
    {
        match self {
            Enum_GNUNET_GNSRECORD_Flags::GNUNET_GNSRECORD_RF_NONE => 0,
            Enum_GNUNET_GNSRECORD_Flags::GNUNET_GNSRECORD_RF_PRIVATE => 2,
            Enum_GNUNET_GNSRECORD_Flags::GNUNET_GNSRECORD_RF_PENDING => 4,
            Enum_GNUNET_GNSRECORD_Flags::GNUNET_GNSRECORD_RF_RELATIVE_EXPIRATION => 8,
            Enum_GNUNET_GNSRECORD_Flags::GNUNET_GNSRECORD_RF_SHADOW_RECORD => 16,
        }
    }
}

} // verus!
