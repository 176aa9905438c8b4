//! Records of the GNU Name System and their wire form.

use crate::util::io::ByteReader;
use crate::util::strings::str_eq;
use vstd::prelude::*;

verus! {

/// The different record types, legacy DNS ones and GNS-specific ones.
#[derive(Copy, Clone, Debug, PartialEq, Eq, Structural)]
pub enum RecordType {
    /// Address record: a 32-bit IPv4 address.
    A,
    /// Name server record.
    NS,
    /// Canonical name record.
    CNAME,
    /// Start of authority record.
    SOA,
    /// Pointer record.
    PTR,
    /// Mail exchange record.
    MX,
    /// Text record.
    TXT,
    /// Address record: a 128-bit IPv6 address.
    AAAA,
    /// TLSA certificate association.
    TLSA,
    /// Petname key record: delegation to another user's zone.
    PKEY,
    /// Nickname record.
    NICK,
    /// Legacy hostname record.
    LEHO,
    /// Virtual public network record.
    VPN,
    /// Delegation to a legacy DNS zone.
    GNS2DNS,
}

impl RecordType {
    /// The 32-bit code of this record type on the wire.
    pub open spec fn code(self) -> u32 {
        match self {
            RecordType::A => 1,
            RecordType::NS => 2,
            RecordType::CNAME => 5,
            RecordType::SOA => 6,
            RecordType::PTR => 12,
            RecordType::MX => 15,
            RecordType::TXT => 16,
            RecordType::AAAA => 28,
            RecordType::TLSA => 52,
            RecordType::PKEY => 65536,
            RecordType::NICK => 65537,
            RecordType::LEHO => 65538,
            RecordType::VPN => 65539,
            RecordType::GNS2DNS => 65540,
        }
    }

    /// The record type a 32-bit code names, `None` for an unknown code.
    pub open spec fn from_code(v: u32) -> Option<RecordType> {
        match v {
            1u32 => Some(RecordType::A),
            2u32 => Some(RecordType::NS),
            5u32 => Some(RecordType::CNAME),
            6u32 => Some(RecordType::SOA),
            12u32 => Some(RecordType::PTR),
            15u32 => Some(RecordType::MX),
            16u32 => Some(RecordType::TXT),
            28u32 => Some(RecordType::AAAA),
            52u32 => Some(RecordType::TLSA),
            65536u32 => Some(RecordType::PKEY),
            65537u32 => Some(RecordType::NICK),
            65538u32 => Some(RecordType::LEHO),
            65539u32 => Some(RecordType::VPN),
            65540u32 => Some(RecordType::GNS2DNS),
            _ => None,
        }
    }

    /// The code of this record type.
    pub fn to_u32(&self) -> (r: u32)
        ensures
            r == self.code(),
    {
        match self {
            RecordType::A => 1,
            RecordType::NS => 2,
            RecordType::CNAME => 5,
            RecordType::SOA => 6,
            RecordType::PTR => 12,
            RecordType::MX => 15,
            RecordType::TXT => 16,
            RecordType::AAAA => 28,
            RecordType::TLSA => 52,
            RecordType::PKEY => 65536,
            RecordType::NICK => 65537,
            RecordType::LEHO => 65538,
            RecordType::VPN => 65539,
            RecordType::GNS2DNS => 65540,
        }
    }

    /// The record type a code names; `None` for an unknown code.
    pub fn from_u32(v: u32) -> (r: Option<RecordType>)
        ensures
            r == RecordType::from_code(v),
    {
        match v {
            1u32 => Some(RecordType::A),
            2u32 => Some(RecordType::NS),
            5u32 => Some(RecordType::CNAME),
            6u32 => Some(RecordType::SOA),
            12u32 => Some(RecordType::PTR),
            15u32 => Some(RecordType::MX),
            16u32 => Some(RecordType::TXT),
            28u32 => Some(RecordType::AAAA),
            52u32 => Some(RecordType::TLSA),
            65536u32 => Some(RecordType::PKEY),
            65537u32 => Some(RecordType::NICK),
            65538u32 => Some(RecordType::LEHO),
            65539u32 => Some(RecordType::VPN),
            65540u32 => Some(RecordType::GNS2DNS),
            _ => None,
        }
    }

    /// The record type a name — `"A"`, `"PKEY"` — denotes.
    pub open spec fn from_name(s: Seq<char>) -> Option<RecordType> {
        if s == "A"@ {
            Some(RecordType::A)
        } else if s == "NS"@ {
            Some(RecordType::NS)
        } else if s == "CNAME"@ {
            Some(RecordType::CNAME)
        } else if s == "SOA"@ {
            Some(RecordType::SOA)
        } else if s == "PTR"@ {
            Some(RecordType::PTR)
        } else if s == "MX"@ {
            Some(RecordType::MX)
        } else if s == "TXT"@ {
            Some(RecordType::TXT)
        } else if s == "AAAA"@ {
            Some(RecordType::AAAA)
        } else if s == "TLSA"@ {
            Some(RecordType::TLSA)
        } else if s == "PKEY"@ {
            Some(RecordType::PKEY)
        } else if s == "NICK"@ {
            Some(RecordType::NICK)
        } else if s == "LEHO"@ {
            Some(RecordType::LEHO)
        } else if s == "VPN"@ {
            Some(RecordType::VPN)
        } else if s == "GNS2DNS"@ {
            Some(RecordType::GNS2DNS)
        } else {
            None
        }
    }

    /// Parse a record type name.
    pub fn parse_name(s: &str) -> (r: Option<RecordType>)
        ensures
            r == RecordType::from_name(s@),
    {
        if str_eq(s, "A") {
            Some(RecordType::A)
        } else if str_eq(s, "NS") {
            Some(RecordType::NS)
        } else if str_eq(s, "CNAME") {
            Some(RecordType::CNAME)
        } else if str_eq(s, "SOA") {
            Some(RecordType::SOA)
        } else if str_eq(s, "PTR") {
            Some(RecordType::PTR)
        } else if str_eq(s, "MX") {
            Some(RecordType::MX)
        } else if str_eq(s, "TXT") {
            Some(RecordType::TXT)
        } else if str_eq(s, "AAAA") {
            Some(RecordType::AAAA)
        } else if str_eq(s, "TLSA") {
            Some(RecordType::TLSA)
        } else if str_eq(s, "PKEY") {
            Some(RecordType::PKEY)
        } else if str_eq(s, "NICK") {
            Some(RecordType::NICK)
        } else if str_eq(s, "LEHO") {
            Some(RecordType::LEHO)
        } else if str_eq(s, "VPN") {
            Some(RecordType::VPN)
        } else if str_eq(s, "GNS2DNS") {
            Some(RecordType::GNS2DNS)
        } else {
            None
        }
    }
}

/// Decoding the code of a record type gives the type back.
pub broadcast proof fn lemma_record_type_roundtrip(t: RecordType)
    ensures
        RecordType::from_code(#[trigger] t.code()) == Some(t),
{
}

/// Error parsing a record type name.
#[derive(Debug)]
pub enum RecordTypeFromStrError {
    /// The name denotes no record type.
    ParsingFailed,
}

impl core::str::FromStr for RecordType {
    type Err = RecordTypeFromStrError;

    fn from_str(s: &str) -> Result<RecordType, RecordTypeFromStrError> {
        match RecordType::parse_name(s) {
            Some(t) => Ok(t),
            None => Err(RecordTypeFromStrError::ParsingFailed),
        }
    }
}

/// The flag bits a record may carry: private (2), pending (4), relative
/// expiration (8), shadow record (16).  Parsing keeps only these bits.
pub const RECORD_FLAG_MASK: u32 = 30;

/// The fields of a record, as specification values.
pub ghost struct RecordView {
    /// The record payload.
    pub data: Seq<u8>,
    /// Expiration time of the record.
    pub expiration_time: u64,
    /// Declared length of the payload.
    pub data_size: u32,
    /// The type of the record.
    pub record_type: RecordType,
    /// The record's flag bits, masked to the known flags.
    pub flags: u32,
}

/// A record in the GNU Name System.
#[derive(Clone, Debug)]
pub struct Record {
    /// The record payload.
    pub data: Vec<u8>,
    /// Expiration time of the record.
    pub expiration_time: u64,
    /// Declared length of the payload.
    pub data_size: usize,
    /// The type of the record.
    pub record_type: RecordType,
    /// The record's flag bits, masked to the known flags.
    pub flags: u32,
}

impl View for Record {
    type V = RecordView;

    open spec fn view(&self) -> RecordView {
        RecordView {
            data: self.data@,
            expiration_time: self.expiration_time,
            data_size: self.data_size as u32,
            record_type: self.record_type,
            flags: self.flags,
        }
    }
}

/// Parse one record off the front of `b`: expiration, payload size,
/// record type, flags, then that many payload bytes.  `None` where the
/// buffer is too short or the record type is unknown.
pub open spec fn spec_parse_record(b: Seq<u8>) -> Option<(RecordView, Seq<u8>)> {
    if b.len() < 20 {
        None
    } else {
        let expiration_time = crate::util::serial::be64_val(b.subrange(0, 8));
        let data_size = crate::util::serial::be32_val(b.subrange(8, 12));
        let type_code = crate::util::serial::be32_val(b.subrange(12, 16));
        let flags = crate::util::serial::be32_val(b.subrange(16, 20)) & RECORD_FLAG_MASK;
        match RecordType::from_code(type_code) {
            None => None,
            Some(record_type) => if b.len() - 20 < data_size {
                None
            } else {
                Some(
                    (
                        RecordView {
                            data: b.subrange(20, 20 + data_size),
                            expiration_time,
                            data_size,
                            record_type,
                            flags,
                        },
                        b.subrange(20 + data_size, b.len() as int),
                    ),
                )
            },
        }
    }
}

/// The byte image of one record: expiration, payload size, type code,
/// flags, payload.
pub open spec fn spec_serialize_record(v: RecordView) -> Seq<u8> {
    crate::util::serial::be64(v.expiration_time) + crate::util::serial::be32(v.data_size)
        + crate::util::serial::be32(v.record_type.code()) + crate::util::serial::be32(v.flags)
        + v.data
}

/// A record view that can travel at all: the declared size counts the
/// payload, and the flags hold only known bits.
pub open spec fn record_wf(v: RecordView) -> bool {
    &&& v.data.len() == v.data_size
    &&& v.flags & RECORD_FLAG_MASK == v.flags
}

/// Round trip: every well-formed record parses back from its own byte
/// image, unchanged, with the bytes after it untouched.
pub proof fn lemma_record_roundtrip(v: RecordView, rest: Seq<u8>)
    requires
        record_wf(v),
    ensures
        spec_parse_record(spec_serialize_record(v) + rest) == Some((v, rest)),
{
    let b = spec_serialize_record(v) + rest;
    assert(b.subrange(0, 8) =~= crate::util::serial::be64(v.expiration_time));
    assert(b.subrange(8, 12) =~= crate::util::serial::be32(v.data_size));
    assert(b.subrange(12, 16) =~= crate::util::serial::be32(v.record_type.code()));
    assert(b.subrange(16, 20) =~= crate::util::serial::be32(v.flags));
    crate::util::serial::lemma_be64_roundtrip(v.expiration_time);
    crate::util::serial::lemma_be32_roundtrip(v.data_size);
    crate::util::serial::lemma_be32_roundtrip(v.record_type.code());
    crate::util::serial::lemma_be32_roundtrip(v.flags);
    lemma_record_type_roundtrip(v.record_type);
    assert(b.subrange(20, 20 + v.data_size) =~= v.data);
    assert(b.subrange(20 + v.data_size, b.len() as int) =~= rest);
}

impl Record {
    /// Deserialize a record from the front of a reader.  `None` — never a
    /// crash or an out-of-bounds read — where the bytes are too short or
    /// the record type is unknown.
    pub fn deserialize(reader: &mut ByteReader) -> (r: Option<Record>)
        ensures
            match r {
                Some(rec) => spec_parse_record(old(reader).spec_remaining()) matches Some(p)
                    && p.0 == rec@ && final(reader).spec_remaining() == p.1,
                None => spec_parse_record(old(reader).spec_remaining()) is None && *final(reader)
                    == *old(reader),
            },
    {
        let ghost pre = *reader;
        let mut probe = *reader;
        let expiration_time = match probe.read_u64_be() {
            Some(v) => v,
            None => {
                return None;
            },
        };
        let data_size32 = match probe.read_u32_be() {
            Some(v) => v,
            None => {
                return None;
            },
        };
        let type_code = match probe.read_u32_be() {
            Some(v) => v,
            None => {
                return None;
            },
        };
        let flags_raw = match probe.read_u32_be() {
            Some(v) => v,
            None => {
                return None;
            },
        };
        let flags = flags_raw & RECORD_FLAG_MASK;
        proof {
            let b = pre.spec_remaining();
            assert(b.subrange(8, b.len() as int).subrange(0, 4) =~= b.subrange(8, 12));
            assert(b.subrange(8, b.len() as int).subrange(4, b.len() - 8).subrange(0, 4)
                =~= b.subrange(12, 16));
            assert(b.subrange(8, b.len() as int).subrange(4, b.len() - 8).subrange(
                4,
                b.len() - 12,
            ).subrange(0, 4) =~= b.subrange(16, 20));
            assert(b.subrange(8, b.len() as int).subrange(4, b.len() - 8).subrange(
                4,
                b.len() - 12,
            ).subrange(4, b.len() - 16) =~= b.subrange(20, b.len() as int));
        }
        let record_type = match RecordType::from_u32(type_code) {
            Some(t) => t,
            None => {
                return None;
            },
        };
        let data_size = data_size32 as usize;
        let data = match crate::util::io::ReadUtil::read_exact_alloc(&mut probe, data_size) {
            Some(d) => d,
            None => {
                return None;
            },
        };
        proof {
            let b = pre.spec_remaining();
            assert(b.subrange(20, b.len() as int).subrange(0, data_size as int) =~= b.subrange(
                20,
                20 + data_size,
            ));
            assert(b.subrange(20, b.len() as int).subrange(
                data_size as int,
                b.len() - 20,
            ) =~= b.subrange(20 + data_size, b.len() as int));
        }
        *reader = probe;
        Some(Record { data, expiration_time, data_size, record_type, flags })
    }

    /// Get the type of a record.
    pub fn record_type(&self) -> (r: RecordType)
        ensures
            r == self@.record_type,
    {
        self.record_type
    }
}

} // verus!
