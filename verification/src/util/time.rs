//! Time values as the wire carries them: absolute times and relative
//! quantities, both in microseconds.

use crate::util::strings::parse_quantity_with_units;
use crate::util::strings::ParseQuantityWithUnitsError;
use vstd::prelude::*;

verus! {

/// A point in time: microseconds since the epoch, `u64::MAX` for the end
/// of time.
#[derive(Copy, Clone, Debug, PartialEq, Eq, Structural)]
pub struct Absolute {
    micros: u64,
}

impl Absolute {
    /// The microseconds since the epoch.
    pub closed spec fn spec_micros(self) -> u64 {
        self.micros
    }

    /// The time `micros` microseconds after the epoch.
    pub fn from_micros(micros: u64) -> (r: Absolute)
        ensures
            r.spec_micros() == micros,
    {
        Absolute { micros }
    }

    /// The microseconds since the epoch.
    pub fn micros(&self) -> (r: u64)
        ensures
            r == self.spec_micros(),
    {
        self.micros
    }

    /// The end of time.
    pub fn forever() -> (r: Absolute)
        ensures
            r.spec_micros() == u64::MAX,
    {
        Absolute { micros: u64::MAX }
    }

    /// Whether this is the end of time.
    pub fn is_forever(&self) -> (r: bool)
        ensures
            r == (self.spec_micros() == u64::MAX),
    {
        self.micros == u64::MAX
    }
}

/// A span of time in microseconds.
#[derive(Copy, Clone, Debug, PartialEq, Eq, Structural)]
pub struct Relative {
    micros: u64,
}

/// The unit suffixes a relative time may be written with, and their value
/// in microseconds.
pub open spec fn spec_relative_units() -> Seq<(Seq<char>, u64)> {
    seq![
        ("us"@, 1u64),
        ("ms"@, 1000u64),
        ("s"@, 1000000u64),
        ("\""@, 1000000u64),
        ("m"@, 60000000u64),
        ("min"@, 60000000u64),
        ("minutes"@, 60000000u64),
        ("'"@, 60000000u64),
        ("h"@, 3600000000u64),
        ("d"@, 86400000000u64),
        ("day"@, 86400000000u64),
        ("days"@, 86400000000u64),
        ("week"@, 604800000000u64),
        ("weeks"@, 604800000000u64),
        ("year"@, 31536000000000u64),
        ("years"@, 31536000000000u64),
        ("a"@, 31536000000000u64),
    ]
}

impl Relative {
    /// The length of the span in microseconds.
    pub closed spec fn spec_micros(self) -> u64 {
        self.micros
    }

    /// The span of `micros` microseconds.
    pub fn from_micros(micros: u64) -> (r: Relative)
        ensures
            r.spec_micros() == micros,
    {
        Relative { micros }
    }

    /// The length of the span in microseconds.
    pub fn as_micros(&self) -> (r: u64)
        ensures
            r == self.spec_micros(),
    {
        self.micros
    }

    /// Parse a span written as numbers with unit suffixes.
    pub fn parse(s: &str) -> (r: Result<Relative, ParseQuantityWithUnitsError>)
        ensures
            match r {
                Ok(v) => crate::util::strings::spec_parse_quantity(s@, spec_relative_units())
                    == Some(v.spec_micros()),
                Err(_) => crate::util::strings::spec_parse_quantity(s@, spec_relative_units())
                    is None,
            },
    {
        let units = relative_units();
        let r = parse_quantity_with_units(s, units.as_slice());
        proof {
            crate::util::strings::lemma_quantity_issue_value(
                crate::util::strings::spec_tokens(s@),
                spec_relative_units(),
                0u64,
            );
        }
        match r {
            Ok(micros) => Ok(Relative { micros }),
            Err(e) => Err(e),
        }
    }
}

/// The unit table of `spec_relative_units`, as runtime values.
fn relative_units() -> (r: Vec<(&'static str, u64)>)
    ensures
        crate::util::strings::unit_views(r@) == spec_relative_units(),
{
    let mut v: Vec<(&'static str, u64)> = Vec::new();
    v.push(("us", 1));
    v.push(("ms", 1000));
    v.push(("s", 1000000));
    v.push(("\"", 1000000));
    v.push(("m", 60000000));
    v.push(("min", 60000000));
    v.push(("minutes", 60000000));
    v.push(("'", 60000000));
    v.push(("h", 3600000000));
    v.push(("d", 86400000000));
    v.push(("day", 86400000000));
    v.push(("days", 86400000000));
    v.push(("week", 604800000000));
    v.push(("weeks", 604800000000));
    v.push(("year", 31536000000000));
    v.push(("years", 31536000000000));
    v.push(("a", 31536000000000));
    proof {
        assert(crate::util::strings::unit_views(v@) =~= spec_relative_units());
    }
    v
}

impl core::str::FromStr for Relative {
    type Err = ParseQuantityWithUnitsError;

    fn from_str(s: &str) -> Result<Relative, ParseQuantityWithUnitsError> {
        Relative::parse(s)
    }
}

} // verus!
