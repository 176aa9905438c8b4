//! The GNS service client's verified parts: its lookup message and the
//! parse of lookup results.

pub mod msg;

pub use crate::gns::record::Record;
pub use crate::gns::record::RecordType;
pub use crate::gns::record::RecordTypeFromStrError;
pub use msg::LocalOptions;

use vstd::prelude::*;
use vstd::string::StrSliceExecFns;

verus! {

/// The longest name a lookup may carry.
pub const GNUNET_DNSPARSER_MAX_NAME_LENGTH: u16 = 253;

/// The lookup options a master-zone lookup uses for a name: a name of
/// exactly two labels whose second is `gnu` stays out of the DHT, any
/// other name looks in the master zone.
pub open spec fn spec_master_options(s: Seq<char>) -> LocalOptions {
    if exists|i: int|
        {
            &&& 0 <= i < s.len()
            &&& s[i] == '.'
            &&& (forall|j: int| 0 <= j < s.len() && j != i ==> s[j] != '.')
            &&& s.subrange(i + 1, s.len() as int) == "gnu"@
        } {
        LocalOptions::NoDHT
    } else {
        LocalOptions::LocalMaster
    }
}

/// Choose the lookup options a master-zone lookup uses for `name`.
pub fn master_options(name: &str) -> (r: LocalOptions)
    ensures
        r == spec_master_options(name@),
{
    let n = name.unicode_len();
    let mut d: usize = 0;
    while d < n && name.get_char(d) != '.'
        invariant
            n == name@.len(),
            d <= n,
            forall|j: int| 0 <= j < d ==> name@[j] != '.',
        decreases n - d,
    {
        d += 1;
    }
    if d == n {
        return LocalOptions::LocalMaster;
    }
    let mut k: usize = d + 1;
    while k < n && name.get_char(k) != '.'
        invariant
            n == name@.len(),
            d < k <= n,
            forall|j: int| d < j < k ==> name@[j] != '.',
        decreases n - k,
    {
        k += 1;
    }
    if k < n {
        proof {
            assert forall|i: int|
                !{
                    &&& 0 <= i < name@.len()
                    &&& name@[i] == '.'
                    &&& (forall|j: int| 0 <= j < name@.len() && j != i ==> name@[j] != '.')
                    &&& name@.subrange(i + 1, name@.len() as int) == "gnu"@
                } by {
                if 0 <= i < name@.len() && name@[i] == '.' {
                    if i != d {
                        assert(name@[d as int] == '.');
                    } else {
                        assert(name@[k as int] == '.');
                    }
                }
            }
        }
        return LocalOptions::LocalMaster;
    }
    let tail = name.substring_char(d + 1, n);
    if crate::util::strings::str_eq(tail, "gnu") {
        proof {
            assert(name@.subrange(d + 1, n as int) == "gnu"@);
        }
        LocalOptions::NoDHT
    } else {
        proof {
            assert forall|i: int|
                !{
                    &&& 0 <= i < name@.len()
                    &&& name@[i] == '.'
                    &&& (forall|j: int| 0 <= j < name@.len() && j != i ==> name@[j] != '.')
                    &&& name@.subrange(i + 1, name@.len() as int) == "gnu"@
                } by {
                if 0 <= i < name@.len() && name@[i] == '.' && i != d {
                    assert(name@[d as int] == '.');
                }
            }
        }
        LocalOptions::LocalMaster
    }
}

/// Error performing a GNS lookup.
#[derive(Debug)]
pub enum LookupError {
    /// The service answered with an unexpected wire type.
    InvalidType {
        /// The wire type actually received.
        typ: u16,
    },
    /// The domain name is too long to look up.
    NameTooLong {
        /// The rejected name.
        name: String,
    },
    /// An I/O error talking to the service.
    Io {
        /// The underlying error.
        source: std::io::Error,
    },
}

/// Error connecting and looking up in one step.
#[derive(Debug)]
pub enum ConnectLookupError {
    /// The connection could not be established.
    Connect {
        /// The underlying error.
        source: crate::service::connection::ConnectError,
    },
    /// The lookup itself failed.
    Lookup {
        /// The underlying error.
        source: LookupError,
    },
    /// An I/O error talking to the service.
    Io {
        /// The underlying error.
        source: std::io::Error,
    },
}

} // verus!
