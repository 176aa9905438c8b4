//! Configuration under its older name: `Cfg` carries the same data and
//! rules as `util::config::Config`, with its own error types, and is kept
//! for the callers that still use it.

use crate::util::config::Config;
use crate::util::config::ConfigExpandDollarError;
use crate::util::config::ConfigGetFilenameError;
use crate::util::config::ConfigGetIntError;
use crate::util::config::ConfigGetRelativeTimeError;
use crate::util::config::ExpandIssue;
use crate::util::config::EXPAND_DEPTH_LIMIT;
use crate::util::strings::spec_parse_quantity;
use crate::util::strings::ParseQuantityWithUnitsError;
use crate::util::time::spec_relative_units;
use crate::util::time::Relative;
use vstd::prelude::*;

verus! {

/// Configuration data.
#[derive(Clone)]
pub struct Cfg {
    inner: Config,
}

/// Error building the system default configuration.
#[derive(Debug)]
pub enum CfgDefaultError {
    /// The installation data directory cannot be determined.
    NoDataDir,
    /// The installation data directory cannot be read.
    ReadDataDir {
        /// The underlying error.
        source: std::io::Error,
    },
    /// A configuration file in it cannot be loaded.
    LoadFile {
        /// The underlying error.
        source: CfgLoadRawError,
    },
}

/// Error loading one configuration file.
#[derive(Debug)]
pub enum CfgLoadRawError {
    /// The file cannot be opened.
    FileOpen {
        /// The underlying error.
        source: std::io::Error,
    },
    /// The file's text cannot be read as configuration.
    Deserialize {
        /// The underlying error.
        source: CfgDeserializeError,
    },
}

/// Error reading configuration text.
#[derive(Debug)]
pub enum CfgDeserializeError {
    /// An I/O error from the underlying reader.
    Io {
        /// The underlying error.
        source: std::io::Error,
    },
    /// An inline file could not be loaded.
    LoadInline {
        /// The underlying error.
        source: Box<CfgLoadRawError>,
        /// The line with the inline directive.
        line_number: usize,
        /// The file the directive names.
        filename: String,
    },
    /// An inline directive was found but inlining is disabled.
    InlineDisabled {
        /// The line with the inline directive.
        line_number: usize,
        /// The file the directive names.
        filename: String,
    },
    /// A line fits no rule of the grammar.
    Syntax {
        /// The offending line's number.
        line_number: usize,
        /// The offending line.
        line: String,
    },
}

/// Error loading a configuration on top of the system defaults.
#[derive(Debug)]
pub enum CfgLoadError {
    /// The system default configuration cannot be loaded.
    LoadDefault {
        /// The underlying error.
        source: CfgDefaultError,
    },
    /// The named file cannot be loaded.
    LoadFile {
        /// The underlying error.
        source: CfgLoadRawError,
    },
}

/// Error reading an integer value.
#[derive(Debug)]
pub enum CfgGetIntError {
    /// The configuration has no section of that name.
    NoSection,
    /// The section has no entry under that key.
    NoKey,
    /// The value is not an unsigned 64-bit decimal.
    Parse {
        /// The underlying error.
        source: core::num::ParseIntError,
    },
}

/// Error reading a floating-point value.
#[derive(Debug)]
pub enum CfgGetFloatError {
    /// The configuration has no section of that name.
    NoSection,
    /// The section has no entry under that key.
    NoKey,
    /// The value is not a number.
    Parse {
        /// The underlying error.
        source: core::num::ParseFloatError,
    },
}

/// Error reading a relative-time value.
#[derive(Debug)]
pub enum CfgGetRelativeTimeError {
    /// The configuration has no section of that name.
    NoSection,
    /// The section has no entry under that key.
    NoKey,
    /// The value is not a relative time.
    Parse {
        /// The underlying error.
        source: ParseQuantityWithUnitsError,
    },
}

/// Error reading a file name value.
#[derive(Debug)]
pub enum CfgGetFilenameError {
    /// The configuration has no section of that name.
    NoSection,
    /// The section has no entry under that key.
    NoKey,
    /// The entry cannot be `$`-expanded.
    ExpandDollar {
        /// The underlying error.
        source: CfgExpandDollarError,
    },
}

/// Error `$`-expanding a value.
#[derive(Debug)]
pub enum CfgExpandDollarError {
    /// Expansion reached an environment variable holding invalid unicode.
    NonUnicodeEnvVar {
        /// The variable's name.
        var_name: String,
    },
    /// The text around a `$` fits no rule of the expansion grammar.
    Syntax {
        /// Character position of the offending place.
        pos: usize,
    },
    /// A variable is neither in the `PATHS` section nor in the attached
    /// environment snapshot.
    UnknownVariable {
        /// The variable's name.
        var_name: String,
    },
    /// A `{` is never closed.
    UnclosedBraces,
    /// Chained variable references nest deeper than the expansion limit.
    ExpansionDepth,
}

impl Cfg {
    /// Every `(section, key)` pair occurs at most once, and every
    /// environment variable name at most once.
    pub closed spec fn wf(self) -> bool {
        self.inner.wf()
    }

    /// Whether any entry lives in the section named `s`.
    pub closed spec fn spec_has_section(self, s: Seq<char>) -> bool {
        self.inner.spec_has_section(s)
    }

    /// The value stored under `(s, k)`.
    pub closed spec fn spec_get(self, s: Seq<char>, k: Seq<char>) -> Option<Seq<char>> {
        self.inner.spec_get(s, k)
    }

    /// The environment variable named `n` in the attached snapshot.
    pub closed spec fn spec_env_var(self, n: Seq<char>) -> Option<Seq<char>> {
        self.inner.spec_env_var(n)
    }

    /// The `$`-expansion of `s` against this configuration.
    pub closed spec fn spec_expand(self, s: Seq<char>, off: int, depth: nat) -> Result<
        Seq<char>,
        ExpandIssue,
    > {
        self.inner.spec_expand(s, off, depth)
    }

    /// An empty configuration.
    pub fn empty() -> (r: Cfg)
        ensures
            r.wf(),
            forall|s: Seq<char>, k: Seq<char>| #[trigger] r.spec_get(s, k) is None,
            forall|s: Seq<char>| !r.spec_has_section(s),
            forall|n: Seq<char>| #[trigger] r.spec_env_var(n) is None,
    {
        Cfg { inner: Config::empty() }
    }

    /// A `Cfg` carrying the given data.
    pub fn from_config(inner: Config) -> (r: Cfg)
        requires
            inner.wf(),
        ensures
            r.wf(),
            forall|s: Seq<char>, k: Seq<char>| #[trigger] r.spec_get(s, k) == inner.spec_get(s, k),
            forall|s: Seq<char>| #[trigger] r.spec_has_section(s) == inner.spec_has_section(s),
            forall|n: Seq<char>| #[trigger] r.spec_env_var(n) == inner.spec_env_var(n),
    {
        Cfg { inner }
    }

    /// Look a value up.
    pub fn get(&self, section: &str, key: &str) -> (r: Option<&String>)
        requires
            self.wf(),
        ensures
            match r {
                Some(v) => self.spec_get(section@, key@) == Some(v@),
                None => self.spec_get(section@, key@) is None,
            },
    {
        self.inner.get(section, key)
    }

    /// Store `value` under `(section, key)`, handing back the value that
    /// stood there before, if any.
    pub fn set_string(&mut self, section: &str, key: &str, value: String) -> (r: Option<String>)
        requires
            old(self).wf(),
        ensures
            final(self).wf(),
            match r {
                Some(prev) => old(self).spec_get(section@, key@) == Some(prev@),
                None => old(self).spec_get(section@, key@) is None,
            },
            final(self).spec_get(section@, key@) == Some(value@),
            forall|s: Seq<char>, k: Seq<char>|
                !(s == section@ && k == key@) ==> #[trigger] final(self).spec_get(s, k) == old(
                    self,
                ).spec_get(s, k),
            forall|s: Seq<char>|
                #[trigger] final(self).spec_has_section(s) == (old(self).spec_has_section(s) || s
                    == section@),
            forall|n: Seq<char>| #[trigger] final(self).spec_env_var(n) == old(self).spec_env_var(
                n,
            ),
    {
        self.inner.set_string(section, key, value)
    }

    /// Attach one variable of the environment snapshot, replacing any
    /// earlier value of the same name.
    pub fn set_env_var(&mut self, name: &str, value: String)
        requires
            old(self).wf(),
        ensures
            final(self).wf(),
            final(self).spec_env_var(name@) == Some(value@),
            forall|n: Seq<char>|
                n != name@ ==> #[trigger] final(self).spec_env_var(n) == old(self).spec_env_var(n),
            forall|s: Seq<char>, k: Seq<char>| #[trigger]
                final(self).spec_get(s, k) == old(self).spec_get(s, k),
            forall|s: Seq<char>| #[trigger]
                final(self).spec_has_section(s) == old(self).spec_has_section(s),
    {
        self.inner.set_env_var(name, value)
    }

    /// Fold another configuration over this one: every entry of `other`
    /// is stored, replacing any value this one held under the same pair.
    pub fn merge(&mut self, other: Cfg)
        requires
            old(self).wf(),
            other.wf(),
        ensures
            final(self).wf(),
            forall|s: Seq<char>, k: Seq<char>| #[trigger]
                final(self).spec_get(s, k) == if other.spec_get(s, k) is Some {
                    other.spec_get(s, k)
                } else {
                    old(self).spec_get(s, k)
                },
            forall|s: Seq<char>|
                #[trigger] final(self).spec_has_section(s) == (old(self).spec_has_section(s)
                    || other.spec_has_section(s)),
            forall|n: Seq<char>| #[trigger] final(self).spec_env_var(n) == old(self).spec_env_var(
                n,
            ),
    {
        self.inner.merge(other.inner)
    }

    /// Read an entry as an unsigned 64-bit decimal integer.
    pub fn get_int(&self, section: &str, key: &str) -> (r: Result<u64, CfgGetIntError>)
        requires
            self.wf(),
        ensures
            match r {
                Ok(v) => self.spec_get(section@, key@) matches Some(t)
                    && crate::util::strings::spec_parse_u64(t) == Some(v),
                Err(CfgGetIntError::NoSection) => !self.spec_has_section(section@),
                Err(CfgGetIntError::NoKey) => self.spec_has_section(section@) && self.spec_get(
                    section@,
                    key@,
                ) is None,
                Err(CfgGetIntError::Parse { .. }) => self.spec_get(section@, key@) matches Some(t)
                    && crate::util::strings::spec_parse_u64(t) is None,
            },
    {
        match self.inner.get_int(section, key) {
            Ok(v) => Ok(v),
            Err(ConfigGetIntError::NoSection) => Err(CfgGetIntError::NoSection),
            Err(ConfigGetIntError::NoKey) => Err(CfgGetIntError::NoKey),
            Err(ConfigGetIntError::Parse { source }) => Err(CfgGetIntError::Parse { source }),
        }
    }

    /// Read an entry as a relative time.
    pub fn get_relative_time(&self, section: &str, key: &str) -> (r: Result<
        Relative,
        CfgGetRelativeTimeError,
    >)
        requires
            self.wf(),
        ensures
            match r {
                Ok(v) => self.spec_get(section@, key@) matches Some(t) && spec_parse_quantity(
                    t,
                    spec_relative_units(),
                ) == Some(v.spec_micros()),
                Err(CfgGetRelativeTimeError::NoSection) => !self.spec_has_section(section@),
                Err(CfgGetRelativeTimeError::NoKey) => self.spec_has_section(section@)
                    && self.spec_get(section@, key@) is None,
                Err(CfgGetRelativeTimeError::Parse { .. }) => self.spec_get(section@, key@)
                    matches Some(t) && spec_parse_quantity(t, spec_relative_units()) is None,
            },
    {
        match self.inner.get_relative_time(section, key) {
            Ok(v) => Ok(v),
            Err(ConfigGetRelativeTimeError::NoSection) => Err(CfgGetRelativeTimeError::NoSection),
            Err(ConfigGetRelativeTimeError::NoKey) => Err(CfgGetRelativeTimeError::NoKey),
            Err(ConfigGetRelativeTimeError::Parse { source }) => Err(
                CfgGetRelativeTimeError::Parse { source },
            ),
        }
    }

    /// Read an entry as a file name, `$`-expanding it.
    pub fn get_filename(&self, section: &str, key: &str) -> (r: Result<String, CfgGetFilenameError>)
        requires
            self.wf(),
        ensures
            match r {
                Ok(t) => self.spec_get(section@, key@) matches Some(v) && self.spec_expand(
                    v,
                    0,
                    EXPAND_DEPTH_LIMIT as nat,
                ) == Ok::<_, ExpandIssue>(t@),
                Err(CfgGetFilenameError::NoSection) => !self.spec_has_section(section@),
                Err(CfgGetFilenameError::NoKey) => self.spec_has_section(section@)
                    && self.spec_get(section@, key@) is None,
                Err(CfgGetFilenameError::ExpandDollar { .. }) => self.spec_get(section@, key@)
                    matches Some(v) && self.spec_expand(v, 0, EXPAND_DEPTH_LIMIT as nat) is Err,
            },
    {
        match self.inner.get_filename(section, key) {
            Ok(t) => Ok(t),
            Err(ConfigGetFilenameError::NoSection) => Err(CfgGetFilenameError::NoSection),
            Err(ConfigGetFilenameError::NoKey) => Err(CfgGetFilenameError::NoKey),
            Err(ConfigGetFilenameError::ExpandDollar { source }) => Err(
                CfgGetFilenameError::ExpandDollar { source: convert_expand_error(source) },
            ),
        }
    }

    /// `$`-expand a value against this configuration.
    pub fn expand_dollar(&self, orig: &str) -> (r: Result<String, CfgExpandDollarError>)
        requires
            self.wf(),
        ensures
            match r {
                Ok(t) => self.spec_expand(orig@, 0, EXPAND_DEPTH_LIMIT as nat) == Ok::<
                    _,
                    ExpandIssue,
                >(t@),
                Err(e) => match e {
                    CfgExpandDollarError::Syntax { pos } => self.spec_expand(
                        orig@,
                        0,
                        EXPAND_DEPTH_LIMIT as nat,
                    ) == Err::<Seq<char>, _>(ExpandIssue::Syntax { pos: pos as int }),
                    CfgExpandDollarError::UnknownVariable { var_name } => self.spec_expand(
                        orig@,
                        0,
                        EXPAND_DEPTH_LIMIT as nat,
                    ) == Err::<Seq<char>, _>(ExpandIssue::UnknownVariable { name: var_name@ }),
                    CfgExpandDollarError::UnclosedBraces => self.spec_expand(
                        orig@,
                        0,
                        EXPAND_DEPTH_LIMIT as nat,
                    ) == Err::<Seq<char>, _>(ExpandIssue::UnclosedBraces),
                    CfgExpandDollarError::ExpansionDepth => self.spec_expand(
                        orig@,
                        0,
                        EXPAND_DEPTH_LIMIT as nat,
                    ) == Err::<Seq<char>, _>(ExpandIssue::TooDeep),
                    CfgExpandDollarError::NonUnicodeEnvVar { .. } => false,
                },
            },
    {
        match self.inner.expand_dollar(orig) {
            Ok(t) => Ok(t),
            Err(e) => Err(convert_expand_error(e)),
        }
    }
}

/// Map an expansion error onto the older error type, variant for variant
/// with every field kept.
fn convert_expand_error(e: ConfigExpandDollarError) -> (r: CfgExpandDollarError)
    ensures
        match e {
            ConfigExpandDollarError::NonUnicodeEnvVar { var_name } => r
                matches CfgExpandDollarError::NonUnicodeEnvVar { var_name: n } && n@ == var_name@,
            ConfigExpandDollarError::Syntax { pos } => r matches CfgExpandDollarError::Syntax {
                pos: p } && p == pos,
            ConfigExpandDollarError::UnknownVariable { var_name } => r
                matches CfgExpandDollarError::UnknownVariable { var_name: n } && n@ == var_name@,
            ConfigExpandDollarError::UnclosedBraces => r is UnclosedBraces,
            ConfigExpandDollarError::ExpansionDepth => r is ExpansionDepth,
        },
{
    match e {
        ConfigExpandDollarError::NonUnicodeEnvVar { var_name } => (
        CfgExpandDollarError::NonUnicodeEnvVar { var_name }),
        ConfigExpandDollarError::Syntax { pos } => CfgExpandDollarError::Syntax { pos },
        ConfigExpandDollarError::UnknownVariable { var_name } => (
        CfgExpandDollarError::UnknownVariable { var_name }),
        ConfigExpandDollarError::UnclosedBraces => CfgExpandDollarError::UnclosedBraces,
        ConfigExpandDollarError::ExpansionDepth => CfgExpandDollarError::ExpansionDepth,
    }
}

} // verus!
