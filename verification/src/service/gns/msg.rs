//! Messages of the GNS service.

use crate::crypto::ecdsa::EcdsaPrivateKey;
use crate::crypto::ecdsa::EcdsaPublicKey;
use crate::gns::record::RecordType;
use crate::util::message::MessageHeader;
use crate::util::message::MessageOutCompound;
use crate::util::message_type::MessageType;
use crate::util::serial::be16;
use crate::util::serial::be32;
use crate::util::serial::push_bytes;
use crate::util::serial::push_u16_be;
use crate::util::serial::push_u32_be;
use crate::util::serial::str_bytes;
use vstd::prelude::*;
use vstd::string::StringExecFns;
use vstd::utf8::encode_utf8;

verus! {

/// Options for GNS lookups.
#[derive(Copy, Clone, Debug, PartialEq, Eq, Structural)]
pub enum LocalOptions {
    /// Default behaviour: look in the local cache, then in the DHT.
    Default,
    /// Do not look in the DHT; keep the request to the local cache.
    NoDHT,
    /// For domains controlled by our master zone only look in the cache.
    LocalMaster,
}

impl LocalOptions {
    /// The 16-bit code of these options on the wire.
    pub open spec fn code(self) -> u16 {
        match self {
            LocalOptions::Default => 0,
            LocalOptions::NoDHT => 1,
            LocalOptions::LocalMaster => 2,
        }
    }

    /// The code of these options.
    pub fn to_u16(&self) -> (r: u16)
        ensures
            r == self.code(),
    {
        match self {
            LocalOptions::Default => 0,
            LocalOptions::NoDHT => 1,
            LocalOptions::LocalMaster => 2,
        }
    }
}

/// The fields of a lookup request, as specification values.
pub ghost struct LookupView {
    /// The correlation id the response will echo.
    pub id: u32,
    /// The zone to look up in: 32 public key bytes.
    pub zone: Seq<u8>,
    /// The lookup options code.
    pub options: u16,
    /// Whether a shorten key is handed along.
    pub have_key: bool,
    /// The record type asked for.
    pub record_type: u32,
    /// The shorten key, all zero where none is handed along.
    pub shorten_key: Seq<u8>,
    /// The name to look up.
    pub name: Seq<char>,
}

/// A lookup request.  Sent as a compound message: an 80-byte prefix, the
/// name bytes, one NUL.
pub struct Lookup {
    id: u32,
    zone: EcdsaPublicKey,
    options: LocalOptions,
    have_key: bool,
    record_type: RecordType,
    shorten_key: EcdsaPrivateKey,
    name: String,
}

impl Lookup {
    /// The framed message always fits the 16-bit length field.
    #[verifier::type_invariant]
    spec fn type_inv(self) -> bool {
        encode_utf8(self.name@).len() + 81 <= 0xffff
    }
}

impl View for Lookup {
    type V = LookupView;

    closed spec fn view(&self) -> LookupView {
        LookupView {
            id: self.id,
            zone: self.zone.spec_bytes(),
            options: self.options.code(),
            have_key: self.have_key,
            record_type: self.record_type.code(),
            shorten_key: self.shorten_key.spec_bytes(),
            name: self.name@,
        }
    }
}

impl Lookup {
    /// A lookup of `name` in `zone`, correlated by `id`.  The shorten
    /// key, where given, asks the service to add the result to that
    /// shorten zone.  `None` where the name exceeds the longest name a
    /// lookup may carry.
    pub fn new(
        id: u32,
        zone: EcdsaPublicKey,
        options: LocalOptions,
        shorten: Option<EcdsaPrivateKey>,
        record_type: RecordType,
        name: String,
    ) -> (r: Option<Lookup>)
        ensures
            match r {
                Some(m) => {
                    &&& encode_utf8(name@).len()
                        <= crate::ll::GNUNET_DNSPARSER_MAX_NAME_LENGTH as int
                    &&& m@.id == id
                    &&& m@.zone == zone.spec_bytes()
                    &&& m@.options == options.code()
                    &&& m@.have_key == shorten is Some
                    &&& m@.record_type == record_type.code()
                    &&& m@.shorten_key == if shorten is Some {
                        shorten.unwrap().spec_bytes()
                    } else {
                        Seq::new(32, |i: int| 0u8)
                    }
                    &&& m@.name == name@
                },
                None => encode_utf8(name@).len()
                    > crate::ll::GNUNET_DNSPARSER_MAX_NAME_LENGTH as int,
            },
    {
        let nb = str_bytes(name.as_str());
        proof {
            vstd::utf8::decode_utf8_encode_utf8(nb@);
            vstd::utf8::encode_utf8_decode_utf8(name@);
        }
        if nb.len() > crate::ll::GNUNET_DNSPARSER_MAX_NAME_LENGTH as usize {
            return None;
        }
        let (have_key, shorten_key) = match shorten {
            Some(k) => (true, k),
            None => (false, EcdsaPrivateKey::zeros()),
        };
        Some(Lookup { id, zone, options, have_key, record_type, shorten_key, name })
    }
}

impl MessageOutCompound for Lookup {
    /// Three chunks: the 80-byte prefix — header, id, zone, options,
    /// have-key flag, record type, shorten key — then the name bytes,
    /// then one NUL byte.
    open spec fn spec_chunks(v: LookupView) -> Seq<Seq<u8>> {
        let nb = encode_utf8(v.name);
        seq![
            crate::util::message::spec_header_bytes(
                (nb.len() + 81) as u16,
                MessageType::GNS_LOOKUP.code(),
            ) + be32(v.id) + v.zone + be16(v.options) + be16(
                if v.have_key {
                    1u16
                } else {
                    0u16
                },
            ) + be32(v.record_type) + v.shorten_key,
            nb,
            seq![0u8],
        ]
    }

    fn as_byte_chunks(&self) -> (r: Vec<Vec<u8>>) {
        proof {
            use_type_invariant(&*self);
        }
        let nb = str_bytes(self.name.as_str());
        proof {
            vstd::utf8::decode_utf8_encode_utf8(nb@);
            vstd::utf8::encode_utf8_decode_utf8(self.name@);
        }
        let name_chunk = vstd::slice::slice_to_vec(nb);
        let mut prefix: Vec<u8> = Vec::new();
        MessageHeader::new((nb.len() + 81) as u16, MessageType::GNS_LOOKUP).encode(&mut prefix);
        push_u32_be(&mut prefix, self.id);
        push_bytes(&mut prefix, self.zone.bytes());
        push_u16_be(&mut prefix, self.options.to_u16());
        push_u16_be(&mut prefix, if self.have_key { 1 } else { 0 });
        push_u32_be(&mut prefix, self.record_type.to_u32());
        push_bytes(&mut prefix, self.shorten_key.bytes());
        let mut nul: Vec<u8> = Vec::new();
        nul.push(0u8);
        let mut out: Vec<Vec<u8>> = Vec::new();
        out.push(prefix);
        out.push(name_chunk);
        out.push(nul);
        proof {
            assert(nul@ =~= seq![0u8]);
            assert(out@.map_values(|c: Vec<u8>| c@) =~= Lookup::spec_chunks(self@));
        }
        out
    }
}

} // verus!
