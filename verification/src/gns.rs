//! The GNU Name System: records, lookups, and the parse of lookup
//! results.

pub mod record;

pub use record::Record;
pub use record::RecordType;
pub use record::RecordTypeFromStrError;

use crate::gns::record::spec_parse_record;
use crate::gns::record::RecordView;
use crate::service::connection::ReadMessageError;
use crate::util::io::ByteReader;
use crate::util::message_type::MessageType;
use vstd::prelude::*;

verus! {

/// Options for GNS lookups.
#[derive(Copy, Clone, Debug, PartialEq, Eq, Structural)]
pub enum LocalOptions {
    /// Default behaviour: look in the local cache, then in the DHT.
    Default,
    /// Do not look in the DHT; keep the request to the local cache.
    NoDHT,
    /// For domains controlled by our master zone only look in the cache.
    LocalMaster,
}

impl LocalOptions {
    /// The 16-bit code of these options on the wire.
    pub open spec fn code(self) -> u16 {
        match self {
            LocalOptions::Default => 0,
            LocalOptions::NoDHT => 1,
            LocalOptions::LocalMaster => 2,
        }
    }

    /// The code of these options.
    pub fn to_u16(&self) -> (r: u16)
        ensures
            r == self.code(),
    {
        match self {
            LocalOptions::Default => 0,
            LocalOptions::NoDHT => 1,
            LocalOptions::LocalMaster => 2,
        }
    }
}

/// Error performing a GNS lookup.
#[derive(Debug)]
pub enum LookupError {
    /// The service answered with an unexpected message kind.
    InvalidType {
        /// The kind actually received.
        tpe: u16,
    },
    /// The domain name is too long to look up.
    NameTooLong {
        /// The rejected name.
        name: String,
    },
    /// An I/O error talking to the service.
    Io {
        /// The underlying error.
        source: std::io::Error,
    },
    /// The response could not be read back as records.
    ReadMessage {
        /// The underlying error.
        source: ReadMessageError,
    },
}

/// Error connecting and looking up in one step.
#[derive(Debug)]
pub enum ConnectLookupError {
    /// The connection could not be established.
    Connect {
        /// The underlying error.
        source: crate::service::connection::ConnectError,
    },
    /// The lookup itself failed.
    Lookup {
        /// The underlying error.
        source: LookupError,
    },
    /// An I/O error talking to the service.
    Io {
        /// The underlying error.
        source: std::io::Error,
    },
}

/// Error looking up in the master zone in one step.
#[derive(Debug)]
pub enum ConnectLookupInMasterError {
    /// The connection or the lookup failed.
    GnsLookup {
        /// The underlying error.
        source: ConnectLookupError,
    },
    /// The default ego of the master zone could not be retrieved.
    IdentityGetDefaultEgo {
        /// The underlying error.
        source: crate::service::identity::ConnectGetDefaultEgoError,
    },
    /// An I/O error talking to the services.
    Io {
        /// The underlying error.
        source: std::io::Error,
    },
}

/// Parse `count` records laid back to back off the front of `b`.
pub open spec fn spec_parse_records(b: Seq<u8>, count: nat) -> Option<(Seq<RecordView>, Seq<u8>)>
    decreases count,
{
    if count == 0 {
        Some((seq![], b))
    } else {
        match spec_parse_record(b) {
            None => None,
            Some((r, rest)) => match spec_parse_records(rest, (count - 1) as nat) {
                None => None,
                Some((more, tail)) => Some((seq![r] + more, tail)),
            },
        }
    }
}

/// The views of a list of records.
pub open spec fn record_views(s: Seq<Record>) -> Seq<RecordView> {
    s.map_values(|r: Record| r@)
}

/// What a lookup result body parses to: the echoed correlation id and the
/// records, laid out as the id, a record count, and that many records.
pub open spec fn spec_parse_lookup_result(b: Seq<u8>) -> Option<(u32, Seq<RecordView>)> {
    if b.len() < 8 {
        None
    } else {
        let id = crate::util::serial::be32_val(b.subrange(0, 4));
        let count = crate::util::serial::be32_val(b.subrange(4, 8));
        match spec_parse_records(b.subrange(8, b.len() as int), count as nat) {
            None => None,
            Some((records, _tail)) => Some((id, records)),
        }
    }
}

/// Parse a lookup result message: check the kind, then read the echoed
/// id, the record count, and that many records.  Bytes after the declared
/// records are ignored, as the service may append further data.
///
/// A message of another kind answers `InvalidType`; a body whose records
/// cannot be read — too short, or an unknown record type — answers
/// `ReadMessage`, never a crash or an out-of-bounds read.
pub fn parse_lookup_result(tpe: u16, body: &[u8]) -> (r: Result<(u32, Vec<Record>), LookupError>)
    ensures
        match r {
            Ok((id, records)) => {
                &&& MessageType::from_code(tpe) == Some(MessageType::GNS_LOOKUP_RESULT)
                &&& spec_parse_lookup_result(body@) matches Some(p) && p.0 == id && p.1
                    == record_views(records@)
            },
            Err(LookupError::InvalidType { tpe: t }) => t == tpe && MessageType::from_code(tpe)
                != Some(MessageType::GNS_LOOKUP_RESULT),
            Err(LookupError::ReadMessage { .. }) => MessageType::from_code(tpe) == Some(
                MessageType::GNS_LOOKUP_RESULT,
            ) && spec_parse_lookup_result(body@) is None,
            Err(LookupError::NameTooLong { .. }) => false,
            Err(LookupError::Io { .. }) => false,
        },
{
    match MessageType::from_u16(tpe) {
        Some(MessageType::GNS_LOOKUP_RESULT) => {},
        _ => {
            return Err(LookupError::InvalidType { tpe });
        },
    }
    let mut reader = ByteReader::new(body);
    let id = match reader.read_u32_be() {
        Some(v) => v,
        None => {
            return Err(LookupError::ReadMessage { source: ReadMessageError::Disconnected });
        },
    };
    let count = match reader.read_u32_be() {
        Some(v) => v,
        None => {
            return Err(LookupError::ReadMessage { source: ReadMessageError::Disconnected });
        },
    };
    proof {
        assert(body@.subrange(4, body@.len() as int).subrange(0, 4) =~= body@.subrange(4, 8));
        assert(body@.subrange(4, body@.len() as int).subrange(4, body@.len() - 4)
            =~= body@.subrange(8, body@.len() as int));
    }
    let ghost tail0 = body@.subrange(8, body@.len() as int);
    let mut records: Vec<Record> = Vec::new();
    let mut k: u32 = 0;
    proof {
        assert(record_views(records@) + spec_records_or_empty(
            spec_parse_records(reader.spec_remaining(), (count - k) as nat),
        ) =~= spec_records_or_empty(spec_parse_records(tail0, count as nat)));
    }
    while k < count
        invariant
            MessageType::from_code(tpe) == Some(MessageType::GNS_LOOKUP_RESULT),
            body@.len() >= 8,
            tail0 == body@.subrange(8, body@.len() as int),
            id == crate::util::serial::be32_val(body@.subrange(0, 4)),
            count == crate::util::serial::be32_val(body@.subrange(4, 8)),
            k <= count,
            spec_parse_records(tail0, count as nat) is Some <==> spec_parse_records(
                reader.spec_remaining(),
                (count - k) as nat,
            ) is Some,
            spec_parse_records(tail0, count as nat) matches Some(p) ==> spec_parse_records(
                reader.spec_remaining(),
                (count - k) as nat,
            ) matches Some(q) && p.0 == record_views(records@) + q.0,
        decreases count - k,
    {
        let rec = match Record::deserialize(&mut reader) {
            Some(rec) => rec,
            None => {
                return Err(LookupError::ReadMessage { source: ReadMessageError::Disconnected });
            },
        };
        proof {
            if spec_parse_records(tail0, count as nat) matches Some(p) {
                assert(record_views(records@.push(rec)) =~= record_views(records@).push(rec@));
                assert(record_views(records@).push(rec@) + spec_parse_records(
                    reader.spec_remaining(),
                    (count - k - 1) as nat,
                ).unwrap().0 =~= record_views(records@) + (seq![rec@] + spec_parse_records(
                    reader.spec_remaining(),
                    (count - k - 1) as nat,
                ).unwrap().0));
            }
        }
        records.push(rec);
        k += 1;
    }
    proof {
        if spec_parse_records(tail0, count as nat) matches Some(p) {
            assert(record_views(records@) + spec_parse_records(
                reader.spec_remaining(),
                0,
            ).unwrap().0 =~= record_views(records@));
        }
    }
    Ok((id, records))
}

/// The byte image of a list of records, laid back to back.
pub open spec fn spec_serialize_records(rs: Seq<RecordView>) -> Seq<u8>
    decreases rs.len(),
{
    if rs.len() == 0 {
        seq![]
    } else {
        crate::gns::record::spec_serialize_record(rs[0]) + spec_serialize_records(rs.drop_first())
    }
}

/// Round trip for the whole list: any number of well-formed records laid
/// back to back parse back as exactly those records, with the bytes after
/// them untouched.
pub proof fn lemma_records_roundtrip(rs: Seq<RecordView>, rest: Seq<u8>)
    requires
        forall|i: int| 0 <= i < rs.len() ==> crate::gns::record::record_wf(#[trigger] rs[i]),
    ensures
        spec_parse_records(spec_serialize_records(rs) + rest, rs.len() as nat) == Some(
            (rs, rest),
        ),
    decreases rs.len(),
{
    if rs.len() == 0 {
        assert(spec_serialize_records(rs) + rest =~= rest);
        assert(seq![] + rest =~= rest);
        assert(rs =~= Seq::<RecordView>::empty());
    } else {
        let tail_bytes = spec_serialize_records(rs.drop_first()) + rest;
        crate::gns::record::lemma_record_roundtrip(rs[0], tail_bytes);
        assert(spec_serialize_records(rs) + rest =~= crate::gns::record::spec_serialize_record(
            rs[0],
        ) + tail_bytes);
        lemma_records_roundtrip(rs.drop_first(), rest);
        assert(seq![rs[0]] + rs.drop_first() =~= rs);
    }
}

/// Round trip for a whole lookup result: a body of the echoed id, the
/// record count, and that many well-formed records parses back as exactly
/// that id and those records.
pub proof fn lemma_lookup_result_roundtrip(id: u32, rs: Seq<RecordView>)
    requires
        rs.len() <= u32::MAX,
        forall|i: int| 0 <= i < rs.len() ==> crate::gns::record::record_wf(#[trigger] rs[i]),
    ensures
        spec_parse_lookup_result(
            crate::util::serial::be32(id) + crate::util::serial::be32(rs.len() as u32)
                + spec_serialize_records(rs),
        ) == Some((id, rs)),
{
    let b = crate::util::serial::be32(id) + crate::util::serial::be32(rs.len() as u32)
        + spec_serialize_records(rs);
    assert(b.subrange(0, 4) =~= crate::util::serial::be32(id));
    assert(b.subrange(4, 8) =~= crate::util::serial::be32(rs.len() as u32));
    crate::util::serial::lemma_be32_roundtrip(id);
    crate::util::serial::lemma_be32_roundtrip(rs.len() as u32);
    assert(b.subrange(8, b.len() as int) =~= spec_serialize_records(rs) + seq![]);
    lemma_records_roundtrip(rs, seq![]);
}

/// Fold one received message into a lookup multiplexer: parse it as a
/// lookup result and deliver the records to the waiter whose id it
/// echoes.  A result whose record list is empty is discarded — the
/// waiter keeps waiting for a later, non-empty result — as is a result
/// for an id with no pending waiter.  Answers whether a waiter was hit;
/// an error leaves the multiplexer exactly as it was, for the caller to
/// tear it down.
pub fn absorb_lookup_result(
    mux: &mut crate::service::pending::Multiplexer<Vec<Record>>,
    tpe: u16,
    body: &[u8],
) -> (r: Result<bool, LookupError>)
    requires
        old(mux).wf(),
        old(mux).spec_state() == crate::service::pending::MuxState::AwaitingRead,
    ensures
        final(mux).wf(),
        match r {
            Ok(hit) => {
                &&& MessageType::from_code(tpe) == Some(MessageType::GNS_LOOKUP_RESULT)
                &&& spec_parse_lookup_result(body@) matches Some(p) && {
                    &&& final(mux).spec_state() == crate::service::pending::MuxState::Idle
                    &&& (p.1.len() == 0 ==> !hit && final(mux).spec_table() == old(
                        mux,
                    ).spec_table())
                    &&& (p.1.len() > 0 ==> {
                        &&& hit == old(mux).spec_table().is_pending(p.0)
                        &&& (hit ==> exists|recs: Vec<Record>|
                            record_views(recs@) == p.1
                                && crate::service::pending::deliver_transition(
                                old(mux).spec_table(),
                                final(mux).spec_table(),
                                p.0,
                                recs,
                            ))
                        &&& (!hit ==> final(mux).spec_table() == old(mux).spec_table())
                    })
                }
            },
            Err(LookupError::InvalidType { tpe: t }) => t == tpe && MessageType::from_code(tpe)
                != Some(MessageType::GNS_LOOKUP_RESULT) && *final(mux) == *old(mux),
            Err(LookupError::ReadMessage { .. }) => MessageType::from_code(tpe) == Some(
                MessageType::GNS_LOOKUP_RESULT,
            ) && spec_parse_lookup_result(body@) is None && *final(mux) == *old(mux),
            Err(LookupError::NameTooLong { .. }) => false,
            Err(LookupError::Io { .. }) => false,
        },
{
    let (id, records) = match parse_lookup_result(tpe, body) {
        Ok(p) => p,
        Err(e) => {
            return Err(e);
        },
    };
    if records.len() == 0 {
        mux.on_discarded_message();
        return Ok(false);
    }
    let ghost recs = records;
    let hit = mux.on_message(id, records);
    proof {
        if hit {
            assert(record_views(recs@) == spec_parse_lookup_result(body@).unwrap().1);
        }
    }
    Ok(hit)
}

/// The record list inside an optional parse, empty for `None`.
pub open spec fn spec_records_or_empty(o: Option<(Seq<RecordView>, Seq<u8>)>) -> Seq<RecordView> {
    match o {
        Some(p) => p.0,
        None => seq![],
    }
}

} // verus!
