//! Configuration data: sections of key/value entries, the `$`-expansion
//! of values, and the grammar of configuration files.
//!
//! The store itself maps a `(section, key)` pair to at most one value.  A
//! snapshot of the process environment can be attached; the `$`-expansion
//! consults the `PATHS` section first and that snapshot second.

use crate::util::strings::spec_parse_quantity;
use crate::util::strings::str_eq;
use crate::util::strings::ParseQuantityWithUnitsError;
use crate::util::time::spec_relative_units;
use crate::util::time::Relative;
use vstd::prelude::*;

verus! {

/// One configuration entry: section, key, value.
#[derive(Clone)]
struct Entry {
    section: String,
    key: String,
    value: String,
}

/// Configuration data.
#[derive(Clone)]
pub struct Config {
    data: Vec<Entry>,
    env: Vec<(String, String)>,
}

impl Config {
    /// Every `(section, key)` pair occurs at most once, and every
    /// environment variable name at most once.
    pub closed spec fn wf(self) -> bool {
        &&& forall|i: int, j: int|
            0 <= i < j < self.data@.len() ==> !((#[trigger] self.data@[i]).section@ == (
            #[trigger] self.data@[j]).section@ && self.data@[i].key@ == self.data@[j].key@)
        &&& forall|i: int, j: int|
            0 <= i < j < self.env@.len() ==> (#[trigger] self.env@[i]).0@ != (
            #[trigger] self.env@[j]).0@
    }

    /// Whether any entry lives in the section named `s`.
    pub closed spec fn spec_has_section(self, s: Seq<char>) -> bool {
        exists|i: int| 0 <= i < self.data@.len() && (#[trigger] self.data@[i]).section@ == s
    }

    /// The value stored under `(s, k)`.
    pub closed spec fn spec_get(self, s: Seq<char>, k: Seq<char>) -> Option<Seq<char>> {
        if exists|i: int|
            0 <= i < self.data@.len() && (#[trigger] self.data@[i]).section@ == s
                && self.data@[i].key@ == k {
            let i = choose|i: int|
                0 <= i < self.data@.len() && (#[trigger] self.data@[i]).section@ == s
                    && self.data@[i].key@ == k;
            Some(self.data@[i].value@)
        } else {
            None
        }
    }

    /// The environment variable named `n` in the attached snapshot.
    pub closed spec fn spec_env_var(self, n: Seq<char>) -> Option<Seq<char>> {
        if exists|i: int| 0 <= i < self.env@.len() && (#[trigger] self.env@[i]).0@ == n {
            let i = choose|i: int|
                0 <= i < self.env@.len() && (#[trigger] self.env@[i]).0@ == n;
            Some(self.env@[i].1@)
        } else {
            None
        }
    }

    /// The entry at a valid index is what `spec_get` answers for its pair.
    proof fn lemma_entry_at(self, i: int)
        requires
            self.wf(),
            0 <= i < self.data@.len(),
        ensures
            self.spec_has_section(self.data@[i].section@),
            self.spec_get(self.data@[i].section@, self.data@[i].key@) == Some(
                self.data@[i].value@,
            ),
    {
        let s = self.data@[i].section@;
        let k = self.data@[i].key@;
        assert(exists|j: int|
            0 <= j < self.data@.len() && (#[trigger] self.data@[j]).section@ == s
                && self.data@[j].key@ == k);
        let j = choose|j: int|
            0 <= j < self.data@.len() && (#[trigger] self.data@[j]).section@ == s
                && self.data@[j].key@ == k;
        if i < j {
            assert(!(self.data@[i].section@ == self.data@[j].section@ && self.data@[i].key@
                == self.data@[j].key@));
        } else if j < i {
            assert(!(self.data@[j].section@ == self.data@[i].section@ && self.data@[j].key@
                == self.data@[i].key@));
        }
    }

    /// The environment entry at a valid index is what `spec_env_var`
    /// answers for its name.
    proof fn lemma_env_at(self, i: int)
        requires
            self.wf(),
            0 <= i < self.env@.len(),
        ensures
            self.spec_env_var(self.env@[i].0@) == Some(self.env@[i].1@),
    {
        let n = self.env@[i].0@;
        assert(exists|j: int| 0 <= j < self.env@.len() && (#[trigger] self.env@[j]).0@ == n);
        let j = choose|j: int| 0 <= j < self.env@.len() && (#[trigger] self.env@[j]).0@ == n;
        if i < j {
            assert(self.env@[i].0@ != self.env@[j].0@);
        } else if j < i {
            assert(self.env@[j].0@ != self.env@[i].0@);
        }
    }

    /// An empty configuration: no entries, no environment.
    pub fn empty() -> (r: Config)
        ensures
            r.wf(),
            forall|s: Seq<char>, k: Seq<char>| #[trigger] r.spec_get(s, k) is None,
            forall|s: Seq<char>| !r.spec_has_section(s),
            forall|n: Seq<char>| #[trigger] r.spec_env_var(n) is None,
    {
        Config { data: Vec::new(), env: Vec::new() }
    }

    /// Find the index of the entry for `(section, key)`.
    fn find(&self, section: &str, key: &str) -> (r: Option<usize>)
        ensures
            match r {
                Some(i) => i < self.data@.len() && self.data@[i as int].section@ == section@
                    && self.data@[i as int].key@ == key@,
                None => !exists|i: int|
                    0 <= i < self.data@.len() && (#[trigger] self.data@[i]).section@ == section@
                        && self.data@[i].key@ == key@,
            },
    {
        let mut i: usize = 0;
        while i < self.data.len()
            invariant
                i <= self.data@.len(),
                forall|j: int|
                    0 <= j < i ==> !((#[trigger] self.data@[j]).section@ == section@
                        && self.data@[j].key@ == key@),
            decreases self.data@.len() - i,
        {
            if str_eq(self.data[i].section.as_str(), section) && str_eq(
                self.data[i].key.as_str(),
                key,
            ) {
                return Some(i);
            }
            i += 1;
        }
        None
    }

    /// Whether any entry lives in the section.
    fn has_section(&self, section: &str) -> (r: bool)
        ensures
            r == self.spec_has_section(section@),
    {
        let mut i: usize = 0;
        while i < self.data.len()
            invariant
                i <= self.data@.len(),
                forall|j: int| 0 <= j < i ==> (#[trigger] self.data@[j]).section@ != section@,
            decreases self.data@.len() - i,
        {
            if str_eq(self.data[i].section.as_str(), section) {
                return true;
            }
            i += 1;
        }
        false
    }

    /// Look a value up.
    pub fn get(&self, section: &str, key: &str) -> (r: Option<&String>)
        requires
            self.wf(),
        ensures
            match r {
                Some(v) => self.spec_get(section@, key@) == Some(v@),
                None => self.spec_get(section@, key@) is None,
            },
    {
        match self.find(section, key) {
            Some(i) => {
                proof {
                    self.lemma_entry_at(i as int);
                }
                Some(&self.data[i].value)
            },
            None => None,
        }
    }

    /// Store `value` under `(section, key)`, handing back the value that
    /// stood there before, if any.
    pub fn set_string(&mut self, section: &str, key: &str, value: String) -> (r: Option<String>)
        requires
            old(self).wf(),
        ensures
            final(self).wf(),
            match r {
                Some(prev) => old(self).spec_get(section@, key@) == Some(prev@),
                None => old(self).spec_get(section@, key@) is None,
            },
            final(self).spec_get(section@, key@) == Some(value@),
            forall|s: Seq<char>, k: Seq<char>|
                !(s == section@ && k == key@) ==> #[trigger] final(self).spec_get(s, k) == old(
                    self,
                ).spec_get(s, k),
            forall|s: Seq<char>|
                #[trigger] final(self).spec_has_section(s) == (old(self).spec_has_section(s) || s
                    == section@),
            forall|n: Seq<char>| #[trigger] final(self).spec_env_var(n) == old(self).spec_env_var(
                n,
            ),
    {
        let found = self.find(section, key);
        let entry = Entry { section: section.to_owned(), key: key.to_owned(), value };
        match found {
            Some(i) => {
                proof {
                    self.lemma_entry_at(i as int);
                }
                let ghost pre = *self;
                let old_entry = self.data.remove(i);
                self.data.insert(i, entry);
                proof {
                    assert(self.data@ =~= pre.data@.update(
                        i as int,
                        self.data@[i as int],
                    ));
                    assert(self.data@[i as int].section@ == section@ && self.data@[i as int].key@
                        == key@);
                    lemma_config_update(pre, *self, i as int);
                }
                Some(old_entry.value)
            },
            None => {
                let ghost pre = *self;
                self.data.push(entry);
                proof {
                    let n = pre.data@.len() as int;
                    assert(self.data@ =~= pre.data@.push(self.data@[n]));
                    lemma_config_push(pre, *self);
                }
                None
            },
        }
    }

    /// Attach one variable of the environment snapshot, replacing any
    /// earlier value of the same name.
    pub fn set_env_var(&mut self, name: &str, value: String)
        requires
            old(self).wf(),
        ensures
            final(self).wf(),
            final(self).spec_env_var(name@) == Some(value@),
            forall|n: Seq<char>|
                n != name@ ==> #[trigger] final(self).spec_env_var(n) == old(self).spec_env_var(n),
            forall|s: Seq<char>, k: Seq<char>| #[trigger]
                final(self).spec_get(s, k) == old(self).spec_get(s, k),
            forall|s: Seq<char>| #[trigger]
                final(self).spec_has_section(s) == old(self).spec_has_section(s),
    {
        let mut i: usize = 0;
        let n = self.env.len();
        while i < n
            invariant
                old(self).wf(),
                n == self.env@.len(),
                i <= n,
                forall|j: int| 0 <= j < i ==> (#[trigger] self.env@[j]).0@ != name@,
                *self == *old(self),
            decreases n - i,
        {
            if str_eq(self.env[i].0.as_str(), name) {
                let ghost pre = *self;
                let _prev = self.env.remove(i);
                self.env.insert(i, (name.to_owned(), value));
                proof {
                    assert(self.env@ =~= pre.env@.update(i as int, self.env@[i as int]));
                    lemma_config_env_update(pre, *self, i as int, name@);
                }
                return ;
            }
            i += 1;
        }
        let ghost pre = *self;
        self.env.push((name.to_owned(), value));
        proof {
            let m = pre.env@.len() as int;
            assert(self.env@ =~= pre.env@.push(self.env@[m]));
            lemma_config_env_push(pre, *self, name@);
        }
    }
}

#[verifier::external_type_specification]
#[verifier::external_body]
/// `core::num::ParseFloatError`, carried opaquely inside error values.
pub struct ExParseFloatError(core::num::ParseFloatError);

/// Error building the system default configuration.
#[derive(Debug)]
pub enum ConfigDefaultError {
    /// The installation data directory cannot be determined.
    NoDataDir,
    /// The installation data directory cannot be read.
    ReadDataDir {
        /// The underlying error.
        source: std::io::Error,
    },
    /// A configuration file in it cannot be loaded.
    LoadFile {
        /// The underlying error.
        source: ConfigLoadRawError,
    },
}

/// Error loading one configuration file.
#[derive(Debug)]
pub enum ConfigLoadRawError {
    /// The file cannot be opened.
    FileOpen {
        /// The underlying error.
        source: std::io::Error,
    },
    /// The file's text cannot be read as configuration.
    Deserialize {
        /// The underlying error.
        source: ConfigDeserializeError,
    },
}

/// Error reading configuration text.
#[derive(Debug)]
pub enum ConfigDeserializeError {
    /// An I/O error from the underlying reader.
    Io {
        /// The underlying error.
        source: std::io::Error,
    },
    /// An inline file could not be loaded.
    LoadInline {
        /// The underlying error.
        source: Box<ConfigLoadRawError>,
        /// The line with the inline directive.
        line_number: usize,
        /// The file the directive names.
        filename: String,
    },
    /// An inline directive was found but inlining is disabled.
    InlineDisabled {
        /// The line with the inline directive.
        line_number: usize,
        /// The file the directive names.
        filename: String,
    },
    /// A line fits no rule of the grammar.
    Syntax {
        /// The offending line's number.
        line_number: usize,
        /// The offending line.
        line: String,
    },
}

/// Error loading a configuration on top of the system defaults.
#[derive(Debug)]
pub enum ConfigLoadError {
    /// The system default configuration cannot be loaded.
    LoadDefault {
        /// The underlying error.
        source: ConfigDefaultError,
    },
    /// The named file cannot be loaded.
    LoadFile {
        /// The underlying error.
        source: ConfigLoadRawError,
    },
}

/// Error reading an integer value.
#[derive(Debug)]
pub enum ConfigGetIntError {
    /// The configuration has no section of that name.
    NoSection,
    /// The section has no entry under that key.
    NoKey,
    /// The value is not an unsigned 64-bit decimal.
    Parse {
        /// The underlying error.
        source: core::num::ParseIntError,
    },
}

/// Error reading a floating-point value.
#[derive(Debug)]
pub enum ConfigGetFloatError {
    /// The configuration has no section of that name.
    NoSection,
    /// The section has no entry under that key.
    NoKey,
    /// The value is not a number.
    Parse {
        /// The underlying error.
        source: core::num::ParseFloatError,
    },
}

/// Error reading a relative-time value.
#[derive(Debug)]
pub enum ConfigGetRelativeTimeError {
    /// The configuration has no section of that name.
    NoSection,
    /// The section has no entry under that key.
    NoKey,
    /// The value is not a relative time.
    Parse {
        /// The underlying error.
        source: ParseQuantityWithUnitsError,
    },
}

/// Error reading a file name value.
#[derive(Debug)]
pub enum ConfigGetFilenameError {
    /// The configuration has no section of that name.
    NoSection,
    /// The section has no entry under that key.
    NoKey,
    /// The entry cannot be `$`-expanded.
    ExpandDollar {
        /// The underlying error.
        source: ConfigExpandDollarError,
    },
}

/// Error `$`-expanding a value.
#[derive(Debug)]
pub enum ConfigExpandDollarError {
    /// Expansion reached an environment variable holding invalid unicode.
    NonUnicodeEnvVar {
        /// The variable's name.
        var_name: String,
    },
    /// The text around a `$` fits no rule of the expansion grammar.
    Syntax {
        /// Character position of the offending place.
        pos: usize,
    },
    /// A variable is neither in the `PATHS` section nor in the attached
    /// environment snapshot.
    UnknownVariable {
        /// The variable's name.
        var_name: String,
    },
    /// A `{` is never closed.
    UnclosedBraces,
    /// Chained variable references nest deeper than the expansion limit.
    ExpansionDepth,
}

impl Config {
    /// Read an entry as an unsigned 64-bit decimal integer.
    pub fn get_int(&self, section: &str, key: &str) -> (r: Result<u64, ConfigGetIntError>)
        requires
            self.wf(),
        ensures
            match r {
                Ok(v) => self.spec_get(section@, key@) matches Some(t)
                    && crate::util::strings::spec_parse_u64(t) == Some(v),
                Err(ConfigGetIntError::NoSection) => !self.spec_has_section(section@),
                Err(ConfigGetIntError::NoKey) => self.spec_has_section(section@) && self.spec_get(
                    section@,
                    key@,
                ) is None,
                Err(ConfigGetIntError::Parse { .. }) => self.spec_get(section@, key@) matches Some(
                    t,
                ) && crate::util::strings::spec_parse_u64(t) is None,
            },
    {
        match self.get(section, key) {
            Some(value) => match crate::util::strings::parse_u64(value.as_str()) {
                Ok(v) => Ok(v),
                Err(source) => Err(ConfigGetIntError::Parse { source }),
            },
            None => {
                if self.has_section(section) {
                    Err(ConfigGetIntError::NoKey)
                } else {
                    Err(ConfigGetIntError::NoSection)
                }
            },
        }
    }

    /// Read an entry as a relative time — `"3 min 10 s"`.
    pub fn get_relative_time(&self, section: &str, key: &str) -> (r: Result<
        Relative,
        ConfigGetRelativeTimeError,
    >)
        requires
            self.wf(),
        ensures
            match r {
                Ok(v) => self.spec_get(section@, key@) matches Some(t) && spec_parse_quantity(
                    t,
                    spec_relative_units(),
                ) == Some(v.spec_micros()),
                Err(ConfigGetRelativeTimeError::NoSection) => !self.spec_has_section(section@),
                Err(ConfigGetRelativeTimeError::NoKey) => self.spec_has_section(section@)
                    && self.spec_get(section@, key@) is None,
                Err(ConfigGetRelativeTimeError::Parse { .. }) => self.spec_get(section@, key@)
                    matches Some(t) && spec_parse_quantity(t, spec_relative_units()) is None,
            },
    {
        match self.get(section, key) {
            Some(value) => match Relative::parse(value.as_str()) {
                Ok(v) => Ok(v),
                Err(source) => Err(ConfigGetRelativeTimeError::Parse { source }),
            },
            None => {
                if self.has_section(section) {
                    Err(ConfigGetRelativeTimeError::NoKey)
                } else {
                    Err(ConfigGetRelativeTimeError::NoSection)
                }
            },
        }
    }

    /// Fold another configuration over this one: every entry of `other`
    /// is stored, replacing any value this one held under the same pair.
    /// The environment snapshot stays this one's.
    pub fn merge(&mut self, other: Config)
        requires
            old(self).wf(),
            other.wf(),
        ensures
            final(self).wf(),
            forall|s: Seq<char>, k: Seq<char>| #[trigger]
                final(self).spec_get(s, k) == if other.spec_get(s, k) is Some {
                    other.spec_get(s, k)
                } else {
                    old(self).spec_get(s, k)
                },
            forall|s: Seq<char>|
                #[trigger] final(self).spec_has_section(s) == (old(self).spec_has_section(s)
                    || other.spec_has_section(s)),
            forall|n: Seq<char>| #[trigger] final(self).spec_env_var(n) == old(self).spec_env_var(
                n,
            ),
    {
        let mut entries = other.data;
        let ghost oother = Config { data: entries, env: other.env };
        let n = entries.len();
        let mut i: usize = 0;
        while i < n
            invariant
                old(self).wf(),
                oother.wf(),
                self.wf(),
                n == entries@.len(),
                i <= n,
                entries@ == oother.data@,
                forall|s: Seq<char>, k: Seq<char>| #[trigger]
                    self.spec_get(s, k) == if exists|j: int|
                        0 <= j < i && (#[trigger] entries@[j]).section@ == s && entries@[j].key@
                            == k {
                        oother.spec_get(s, k)
                    } else {
                        old(self).spec_get(s, k)
                    },
                forall|s: Seq<char>|
                    #[trigger] self.spec_has_section(s) == (old(self).spec_has_section(s) || exists|
                        j: int,
                    | 0 <= j < i && (#[trigger] entries@[j]).section@ == s),
                forall|m: Seq<char>| #[trigger] self.spec_env_var(m) == old(self).spec_env_var(m),
            decreases n - i,
        {
            let ghost pre = *self;
            let section = entries[i].section.clone();
            let key = entries[i].key.clone();
            let value = entries[i].value.clone();
            let _prev = self.set_string(section.as_str(), key.as_str(), value);
            proof {
                oother.lemma_entry_at(i as int);
                assert forall|s: Seq<char>, k: Seq<char>| #[trigger]
                    self.spec_get(s, k) == if exists|j: int|
                        0 <= j < i + 1 && (#[trigger] entries@[j]).section@ == s
                            && entries@[j].key@ == k {
                        oother.spec_get(s, k)
                    } else {
                        old(self).spec_get(s, k)
                    } by {
                    if s == entries@[i as int].section@ && k == entries@[i as int].key@ {
                        assert(entries@[i as int].section@ == s && entries@[i as int].key@ == k);
                    } else {
                        assert(self.spec_get(s, k) == pre.spec_get(s, k));
                        assert((exists|j: int|
                            0 <= j < i + 1 && (#[trigger] entries@[j]).section@ == s
                                && entries@[j].key@ == k) == (exists|j: int|
                            0 <= j < i && (#[trigger] entries@[j]).section@ == s
                                && entries@[j].key@ == k));
                    }
                }
                assert forall|s: Seq<char>|
                    #[trigger] self.spec_has_section(s) == (old(self).spec_has_section(s)
                        || exists|j: int|
                        0 <= j < i + 1 && (#[trigger] entries@[j]).section@ == s) by {
                    if s == entries@[i as int].section@ {
                        assert(entries@[i as int].section@ == s);
                    } else {
                        assert((exists|j: int|
                            0 <= j < i + 1 && (#[trigger] entries@[j]).section@ == s) == (exists|
                            j: int,
                        | 0 <= j < i && (#[trigger] entries@[j]).section@ == s));
                    }
                }
            }
            i += 1;
        }
        proof {
            assert forall|s: Seq<char>, k: Seq<char>| #[trigger]
                final(self).spec_get(s, k) == if oother.spec_get(s, k) is Some {
                    oother.spec_get(s, k)
                } else {
                    old(self).spec_get(s, k)
                } by {
                if oother.spec_get(s, k) is Some {
                    let j = choose|j: int|
                        0 <= j < oother.data@.len() && (#[trigger] oother.data@[j]).section@ == s
                            && oother.data@[j].key@ == k;
                    assert(entries@[j].section@ == s && entries@[j].key@ == k);
                } else {
                    if exists|j: int|
                        0 <= j < n && (#[trigger] entries@[j]).section@ == s && entries@[j].key@
                            == k {
                        let j = choose|j: int|
                            0 <= j < n && (#[trigger] entries@[j]).section@ == s
                                && entries@[j].key@ == k;
                        assert(oother.data@[j].section@ == s && oother.data@[j].key@ == k);
                    }
                }
            }
            assert forall|s: Seq<char>|
                #[trigger] final(self).spec_has_section(s) == (old(self).spec_has_section(s)
                    || oother.spec_has_section(s)) by {
                if oother.spec_has_section(s) {
                    let j = choose|j: int|
                        0 <= j < oother.data@.len() && (#[trigger] oother.data@[j]).section@ == s;
                    assert(entries@[j].section@ == s);
                }
                if exists|j: int| 0 <= j < n && (#[trigger] entries@[j]).section@ == s {
                    let j = choose|j: int| 0 <= j < n && (#[trigger] entries@[j]).section@ == s;
                    assert(oother.data@[j].section@ == s);
                }
            }
        }
    }
}

/// Whether a character may stand in a variable name: alphanumeric or an
/// underscore.
pub open spec fn spec_name_char(c: char) -> bool {
    crate::util::strings::spec_alphanumeric(c) || c == '_'
}

/// Whether a character may stand in a variable name.
fn is_name_char(c: char) -> (r: bool)
    ensures
        r == spec_name_char(c),
{
    crate::util::strings::char_is_alphanumeric(c) || c == '_'
}

/// The length of the leading run of name characters.
pub open spec fn spec_name_len(t: Seq<char>) -> nat
    decreases t.len(),
{
    if t.len() == 0 || !spec_name_char(t[0]) {
        0
    } else {
        1 + spec_name_len(t.drop_first())
    }
}

/// The name length never exceeds the sequence.
pub proof fn lemma_name_len_bounds(t: Seq<char>)
    ensures
        spec_name_len(t) <= t.len(),
    decreases t.len(),
{
    if t.len() == 0 || !spec_name_char(t[0]) {
    } else {
        lemma_name_len_bounds(t.drop_first());
    }
}

/// A run of `m` name characters followed by a non-name character or the
/// end has name length `m`.
pub proof fn lemma_name_len_is(t: Seq<char>, m: int)
    requires
        0 <= m <= t.len(),
        forall|k: int| 0 <= k < m ==> spec_name_char(t[k]),
        m == t.len() || !spec_name_char(t[m]),
    ensures
        spec_name_len(t) == m,
    decreases m,
{
    if m == 0 {
    } else {
        lemma_name_len_is(t.drop_first(), m - 1);
    }
}

/// The index of the first `}` at nesting level zero, counting `{` up and
/// `}` down; `None` where braces never close.
pub open spec fn spec_brace_scan(t: Seq<char>, level: nat) -> Option<int>
    decreases t.len(),
{
    if t.len() == 0 {
        None
    } else if t[0] == '}' && level == 0 {
        Some(0)
    } else {
        let nl: nat = if t[0] == '{' {
            level + 1
        } else if t[0] == '}' {
            (level - 1) as nat
        } else {
            level
        };
        match spec_brace_scan(t.drop_first(), nl) {
            None => None,
            Some(i) => Some(i + 1),
        }
    }
}

/// What the brace scan finds is a closing brace inside the text.
pub proof fn lemma_brace_scan_bounds(t: Seq<char>, level: nat)
    ensures
        spec_brace_scan(t, level) matches Some(i) ==> 0 <= i < t.len() && t[i] == '}',
    decreases t.len(),
{
    if t.len() == 0 {
    } else if t[0] == '}' && level == 0 {
    } else {
        let nl: nat = if t[0] == '{' {
            level + 1
        } else if t[0] == '}' {
            (level - 1) as nat
        } else {
            level
        };
        lemma_brace_scan_bounds(t.drop_first(), nl);
    }
}

/// What can go wrong during `$`-expansion, as specification values.
pub ghost enum ExpandIssue {
    /// The text around a `$` fits no rule; the position is in characters.
    Syntax { pos: int },
    /// A variable that is defined nowhere.
    UnknownVariable { name: Seq<char> },
    /// A `{` is never closed.
    UnclosedBraces,
    /// Variable references nest deeper than the expansion limit.
    TooDeep,
}

impl Config {
    /// Where `$`-expansion finds a variable's value: the `PATHS` section
    /// first, the attached environment snapshot second.
    pub open spec fn spec_lookup_var(self, name: Seq<char>) -> Option<Seq<char>> {
        match self.spec_get("PATHS"@, name) {
            Some(v) => Some(v),
            None => self.spec_env_var(name),
        }
    }

    /// The `$`-expansion of `s`, standing at character position `off` of
    /// the whole text, with `depth` further levels of variable
    /// references allowed.
    ///
    /// `$NAME` and `${NAME}` insert the named variable's value, itself
    /// expanded; `${NAME:-default}` falls back to the expansion of
    /// `default` when the variable is defined nowhere.
    pub open spec fn spec_expand(self, s: Seq<char>, off: int, depth: nat) -> Result<
        Seq<char>,
        ExpandIssue,
    >
        decreases depth, s.len(),
    {
        if s.len() == 0 {
            Ok(seq![])
        } else if s[0] != '$' {
            match self.spec_expand(s.drop_first(), off + 1, depth) {
                Ok(t) => Ok(seq![s[0]] + t),
                Err(e) => Err(e),
            }
        } else if s.len() == 1 {
            Err(ExpandIssue::Syntax { pos: off + 1 })
        } else if s[1] == '{' {
            let m = spec_name_len(s.subrange(2, s.len() as int)) as int;
            let after = 2 + m;
            proof {
                lemma_name_len_bounds(s.subrange(2, s.len() as int));
            }
            if m == 0 {
                if s.len() == 2 {
                    Err(ExpandIssue::UnclosedBraces)
                } else {
                    Err(ExpandIssue::Syntax { pos: off + 2 })
                }
            } else {
                let name = s.subrange(2, after);
                if after == s.len() {
                    Err(ExpandIssue::UnclosedBraces)
                } else if s[after] == '}' {
                    match self.spec_lookup_var(name) {
                        None => Err(ExpandIssue::UnknownVariable { name }),
                        Some(v) => if depth == 0 {
                            Err(ExpandIssue::TooDeep)
                        } else {
                            match self.spec_expand(v, 0, (depth - 1) as nat) {
                                Err(e) => Err(e),
                                Ok(ve) => match self.spec_expand(
                                    s.subrange(after + 1, s.len() as int),
                                    off + after + 1,
                                    depth,
                                ) {
                                    Err(e) => Err(e),
                                    Ok(t) => Ok(ve + t),
                                },
                            }
                        },
                    }
                } else if s[after] == ':' {
                    if after + 1 == s.len() {
                        Err(ExpandIssue::UnclosedBraces)
                    } else if s[after + 1] != '-' {
                        Err(ExpandIssue::Syntax { pos: off + after + 1 })
                    } else if after + 2 == s.len() {
                        Err(ExpandIssue::UnclosedBraces)
                    } else {
                        match spec_brace_scan(s.subrange(after + 2, s.len() as int), 0) {
                            None => Err(ExpandIssue::UnclosedBraces),
                            Some(e) => {
                                proof {
                                    lemma_brace_scan_bounds(
                                        s.subrange(after + 2, s.len() as int),
                                        0,
                                    );
                                }
                                let def = s.subrange(after + 2, after + 2 + e);
                                let rest = s.subrange(after + 2 + e + 1, s.len() as int);
                                let rest_off = off + after + 2 + e + 1;
                                match self.spec_lookup_var(name) {
                                    Some(v) => if depth == 0 {
                                        Err(ExpandIssue::TooDeep)
                                    } else {
                                        match self.spec_expand(v, 0, (depth - 1) as nat) {
                                            Err(err) => Err(err),
                                            Ok(ve) => match self.spec_expand(
                                                rest,
                                                rest_off,
                                                depth,
                                            ) {
                                                Err(err) => Err(err),
                                                Ok(t) => Ok(ve + t),
                                            },
                                        }
                                    },
                                    None => match self.spec_expand(def, off + after + 2, depth) {
                                        Err(err) => Err(err),
                                        Ok(de) => match self.spec_expand(rest, rest_off, depth) {
                                            Err(err) => Err(err),
                                            Ok(t) => Ok(de + t),
                                        },
                                    },
                                }
                            },
                        }
                    }
                } else {
                    Err(ExpandIssue::Syntax { pos: off + after })
                }
            }
        } else {
            let m = spec_name_len(s.subrange(1, s.len() as int)) as int;
            let name = s.subrange(1, 1 + m);
            proof {
                lemma_name_len_bounds(s.subrange(1, s.len() as int));
            }
            match self.spec_lookup_var(name) {
                None => Err(ExpandIssue::UnknownVariable { name }),
                Some(v) => if depth == 0 {
                    Err(ExpandIssue::TooDeep)
                } else {
                    match self.spec_expand(v, 0, (depth - 1) as nat) {
                        Err(e) => Err(e),
                        Ok(ve) => match self.spec_expand(
                            s.subrange(1 + m, s.len() as int),
                            off + 1 + m,
                            depth,
                        ) {
                            Err(e) => Err(e),
                            Ok(t) => Ok(ve + t),
                        },
                    }
                },
            }
        }
    }

}

/// How many levels of chained variable references `$`-expansion follows
/// before giving up.
pub const EXPAND_DEPTH_LIMIT: u32 = 128;

/// The end of the run of name characters starting at `start`.
fn scan_name(s: &str, start: usize) -> (r: usize)
    requires
        start <= s@.len(),
    ensures
        start <= r <= s@.len(),
        spec_name_len(s@.subrange(start as int, s@.len() as int)) == r - start,
{
    let n = s.unicode_len();
    let mut j: usize = start;
    while j < n && is_name_char(s.get_char(j))
        invariant
            start <= j <= n,
            n == s@.len(),
            forall|k: int| start <= k < j ==> spec_name_char(s@[k]),
        decreases n - j,
    {
        j += 1;
    }
    proof {
        let t = s@.subrange(start as int, s@.len() as int);
        assert(forall|k: int| 0 <= k < j - start ==> spec_name_char(#[trigger] t[k]));
        assert(j - start == t.len() || !spec_name_char(t[j - start]));
        lemma_name_len_is(t, j - start);
    }
    j
}

/// The position of the `}` closing the brace group that starts at
/// `start`, `None` where it never closes.
fn scan_brace_end(s: &str, start: usize) -> (r: Option<usize>)
    requires
        start <= s@.len(),
    ensures
        match r {
            Some(j) => start <= j < s@.len() && spec_brace_scan(
                s@.subrange(start as int, s@.len() as int),
                0,
            ) == Some(j - start),
            None => spec_brace_scan(s@.subrange(start as int, s@.len() as int), 0) is None,
        },
{
    let n = s.unicode_len();
    let ghost t0 = s@.subrange(start as int, s@.len() as int);
    let mut j: usize = start;
    let mut level: usize = 0;
    while j < n
        invariant
            start <= j <= n,
            n == s@.len(),
            level <= j - start,
            t0 == s@.subrange(start as int, s@.len() as int),
            spec_brace_scan(t0, 0) == match spec_brace_scan(
                s@.subrange(j as int, s@.len() as int),
                level as nat,
            ) {
                None => None::<int>,
                Some(i) => Some(j - start + i),
            },
        decreases n - j,
    {
        let c = s.get_char(j);
        proof {
            assert(s@.subrange(j as int, s@.len() as int)[0] == s@[j as int]);
            assert(s@.subrange(j as int, s@.len() as int).drop_first() =~= s@.subrange(
                j + 1,
                s@.len() as int,
            ));
        }
        if c == '}' && level == 0 {
            return Some(j);
        }
        if c == '{' {
            level = level + 1;
        } else if c == '}' {
            level = level - 1;
        }
        j += 1;
    }
    proof {
        assert(s@.subrange(j as int, s@.len() as int).len() == 0);
    }
    None
}

impl Config {
    /// Where expansion finds a variable's value: the `PATHS` section
    /// first, the environment snapshot second.
    fn lookup_var(&self, name: &str) -> (r: Option<&String>)
        requires
            self.wf(),
        ensures
            match r {
                Some(v) => self.spec_lookup_var(name@) == Some(v@),
                None => self.spec_lookup_var(name@) is None,
            },
    {
        match self.get("PATHS", name) {
            Some(v) => Some(v),
            None => {
                let mut i: usize = 0;
                while i < self.env.len()
                    invariant
                        self.wf(),
                        self.spec_get("PATHS"@, name@) is None,
                        i <= self.env@.len(),
                        forall|j: int| 0 <= j < i ==> (#[trigger] self.env@[j]).0@ != name@,
                    decreases self.env@.len() - i,
                {
                    if str_eq(self.env[i].0.as_str(), name) {
                        proof {
                            self.lemma_env_at(i as int);
                        }
                        return Some(&self.env[i].1);
                    }
                    i += 1;
                }
                None
            },
        }
    }

    /// `$`-expand `s`, standing at character position `off` of the
    /// whole text, with `depth` further levels of variable references
    /// allowed.
    fn expand_at(&self, s: &str, off: usize, depth: u32) -> (r: Result<
        String,
        ConfigExpandDollarError,
    >)
        requires
            self.wf(),
            off + s@.len() <= usize::MAX,
        ensures
            match r {
                Ok(t) => self.spec_expand(s@, off as int, depth as nat) == Ok::<_, ExpandIssue>(
                    t@,
                ),
                Err(e) => match e {
                    ConfigExpandDollarError::Syntax { pos } => self.spec_expand(
                        s@,
                        off as int,
                        depth as nat,
                    ) == Err::<Seq<char>, _>(ExpandIssue::Syntax { pos: pos as int }),
                    ConfigExpandDollarError::UnknownVariable { var_name } => self.spec_expand(
                        s@,
                        off as int,
                        depth as nat,
                    ) == Err::<Seq<char>, _>(ExpandIssue::UnknownVariable { name: var_name@ }),
                    ConfigExpandDollarError::UnclosedBraces => self.spec_expand(
                        s@,
                        off as int,
                        depth as nat,
                    ) == Err::<Seq<char>, _>(ExpandIssue::UnclosedBraces),
                    ConfigExpandDollarError::ExpansionDepth => self.spec_expand(
                        s@,
                        off as int,
                        depth as nat,
                    ) == Err::<Seq<char>, _>(ExpandIssue::TooDeep),
                    ConfigExpandDollarError::NonUnicodeEnvVar { .. } => false,
                },
            },
        decreases depth, s@.len(),
    {
        let n = s.unicode_len();
        if n == 0 {
            return Ok(String::new());
        }
        let c0 = s.get_char(0);
        if c0 != '$' {
            let rest = s.substring_char(1, n);
            match self.expand_at(rest, off + 1, depth) {
                Ok(t) => {
                    let mut out = String::new();
                    crate::util::strings::string_push_char(&mut out, c0);
                    out.append(t.as_str());
                    proof {
                        assert(s@.drop_first() =~= rest@);
                        assert(out@ =~= seq![s@[0]] + t@);
                    }
                    Ok(out)
                },
                Err(e) => {
                    proof {
                        assert(s@.drop_first() =~= rest@);
                    }
                    Err(e)
                },
            }
        } else if n == 1 {
            Err(ConfigExpandDollarError::Syntax { pos: off + 1 })
        } else if s.get_char(1) == '{' {
            let j = scan_name(s, 2);
            let ghost m = j - 2;
            if j == 2 {
                if n == 2 {
                    return Err(ConfigExpandDollarError::UnclosedBraces);
                }
                return Err(ConfigExpandDollarError::Syntax { pos: off + 2 });
            }
            let name = s.substring_char(2, j);
            proof {
                assert(name@ =~= s@.subrange(2, 2 + m));
            }
            let after = j;
            if after == n {
                return Err(ConfigExpandDollarError::UnclosedBraces);
            }
            let ca = s.get_char(after);
            if ca == '}' {
                match self.lookup_var(name) {
                    None => Err(
                        ConfigExpandDollarError::UnknownVariable { var_name: name.to_owned() },
                    ),
                    Some(v) => {
                        if depth == 0 {
                            return Err(ConfigExpandDollarError::ExpansionDepth);
                        }
                        let _vn = v.unicode_len();
                        let ve = match self.expand_at(v.as_str(), 0, depth - 1) {
                            Ok(ve) => ve,
                            Err(e) => {
                                return Err(e);
                            },
                        };
                        let rest = s.substring_char(after + 1, n);
                        proof {
                            assert(rest@ =~= s@.subrange(after + 1, s@.len() as int));
                        }
                        match self.expand_at(rest, off + after + 1, depth) {
                            Err(e) => Err(e),
                            Ok(t) => {
                                let mut out = ve;
                                out.append(t.as_str());
                                Ok(out)
                            },
                        }
                    },
                }
            } else if ca == ':' {
                if after + 1 == n {
                    return Err(ConfigExpandDollarError::UnclosedBraces);
                }
                if s.get_char(after + 1) != '-' {
                    return Err(ConfigExpandDollarError::Syntax { pos: off + after + 1 });
                }
                if after + 2 == n {
                    return Err(ConfigExpandDollarError::UnclosedBraces);
                }
                let e_abs = match scan_brace_end(s, after + 2) {
                    None => {
                        return Err(ConfigExpandDollarError::UnclosedBraces);
                    },
                    Some(e_abs) => e_abs,
                };
                let ghost e = e_abs - (after + 2);
                let def = s.substring_char(after + 2, e_abs);
                let rest = s.substring_char(e_abs + 1, n);
                proof {
                    assert(def@ =~= s@.subrange(after + 2, after + 2 + e));
                    assert(rest@ =~= s@.subrange(after + 2 + e + 1, s@.len() as int));
                }
                match self.lookup_var(name) {
                    Some(v) => {
                        if depth == 0 {
                            return Err(ConfigExpandDollarError::ExpansionDepth);
                        }
                        let _vn = v.unicode_len();
                        let ve = match self.expand_at(v.as_str(), 0, depth - 1) {
                            Ok(ve) => ve,
                            Err(err) => {
                                return Err(err);
                            },
                        };
                        match self.expand_at(rest, off + e_abs + 1, depth) {
                            Err(err) => Err(err),
                            Ok(t) => {
                                let mut out = ve;
                                out.append(t.as_str());
                                Ok(out)
                            },
                        }
                    },
                    None => {
                        let de = match self.expand_at(def, off + after + 2, depth) {
                            Ok(de) => de,
                            Err(err) => {
                                return Err(err);
                            },
                        };
                        match self.expand_at(rest, off + e_abs + 1, depth) {
                            Err(err) => Err(err),
                            Ok(t) => {
                                let mut out = de;
                                out.append(t.as_str());
                                Ok(out)
                            },
                        }
                    },
                }
            } else {
                Err(ConfigExpandDollarError::Syntax { pos: off + after })
            }
        } else {
            let j = scan_name(s, 1);
            let ghost m = j - 1;
            let name = s.substring_char(1, j);
            proof {
                assert(name@ =~= s@.subrange(1, 1 + m));
            }
            match self.lookup_var(name) {
                None => Err(
                    ConfigExpandDollarError::UnknownVariable { var_name: name.to_owned() },
                ),
                Some(v) => {
                    if depth == 0 {
                        return Err(ConfigExpandDollarError::ExpansionDepth);
                    }
                    let _vn = v.unicode_len();
                    let ve = match self.expand_at(v.as_str(), 0, depth - 1) {
                        Ok(ve) => ve,
                        Err(e) => {
                            return Err(e);
                        },
                    };
                    let rest = s.substring_char(j, n);
                    proof {
                        assert(rest@ =~= s@.subrange(1 + m, s@.len() as int));
                    }
                    match self.expand_at(rest, off + j, depth) {
                        Err(e) => Err(e),
                        Ok(t) => {
                            let mut out = ve;
                            out.append(t.as_str());
                            Ok(out)
                        },
                    }
                },
            }
        }
    }

    /// `$`-expand a value against this configuration, following at most
    /// `EXPAND_DEPTH_LIMIT` levels of chained variable references.
    pub fn expand_dollar(&self, orig: &str) -> (r: Result<String, ConfigExpandDollarError>)
        requires
            self.wf(),
        ensures
            match r {
                Ok(t) => self.spec_expand(orig@, 0, EXPAND_DEPTH_LIMIT as nat) == Ok::<
                    _,
                    ExpandIssue,
                >(t@),
                Err(e) => match e {
                    ConfigExpandDollarError::Syntax { pos } => self.spec_expand(
                        orig@,
                        0,
                        EXPAND_DEPTH_LIMIT as nat,
                    ) == Err::<Seq<char>, _>(ExpandIssue::Syntax { pos: pos as int }),
                    ConfigExpandDollarError::UnknownVariable { var_name } => self.spec_expand(
                        orig@,
                        0,
                        EXPAND_DEPTH_LIMIT as nat,
                    ) == Err::<Seq<char>, _>(ExpandIssue::UnknownVariable { name: var_name@ }),
                    ConfigExpandDollarError::UnclosedBraces => self.spec_expand(
                        orig@,
                        0,
                        EXPAND_DEPTH_LIMIT as nat,
                    ) == Err::<Seq<char>, _>(ExpandIssue::UnclosedBraces),
                    ConfigExpandDollarError::ExpansionDepth => self.spec_expand(
                        orig@,
                        0,
                        EXPAND_DEPTH_LIMIT as nat,
                    ) == Err::<Seq<char>, _>(ExpandIssue::TooDeep),
                    ConfigExpandDollarError::NonUnicodeEnvVar { .. } => false,
                },
            },
    {
        let _n = orig.unicode_len();
        self.expand_at(orig, 0, EXPAND_DEPTH_LIMIT)
    }

    /// Read an entry as a file name, `$`-expanding it.
    pub fn get_filename(&self, section: &str, key: &str) -> (r: Result<
        String,
        ConfigGetFilenameError,
    >)
        requires
            self.wf(),
        ensures
            match r {
                Ok(t) => self.spec_get(section@, key@) matches Some(v) && self.spec_expand(
                    v,
                    0,
                    EXPAND_DEPTH_LIMIT as nat,
                ) == Ok::<_, ExpandIssue>(t@),
                Err(ConfigGetFilenameError::NoSection) => !self.spec_has_section(section@),
                Err(ConfigGetFilenameError::NoKey) => self.spec_has_section(section@)
                    && self.spec_get(section@, key@) is None,
                Err(ConfigGetFilenameError::ExpandDollar { .. }) => self.spec_get(section@, key@)
                    matches Some(v) && self.spec_expand(v, 0, EXPAND_DEPTH_LIMIT as nat) is Err,
            },
    {
        match self.get(section, key) {
            Some(value) => match self.expand_dollar(value.as_str()) {
                Ok(t) => Ok(t),
                Err(source) => Err(ConfigGetFilenameError::ExpandDollar { source }),
            },
            None => {
                if self.has_section(section) {
                    Err(ConfigGetFilenameError::NoKey)
                } else {
                    Err(ConfigGetFilenameError::NoSection)
                }
            },
        }
    }
}

/// The length of the leading run of whitespace characters.
pub open spec fn spec_leading_ws(t: Seq<char>) -> nat
    decreases t.len(),
{
    if t.len() == 0 || !crate::util::strings::spec_whitespace(t[0]) {
        0
    } else {
        1 + spec_leading_ws(t.drop_first())
    }
}

/// The length of the trailing run of whitespace characters.
pub open spec fn spec_trailing_ws(t: Seq<char>) -> nat
    decreases t.len(),
{
    if t.len() == 0 || !crate::util::strings::spec_whitespace(t.last()) {
        0
    } else {
        1 + spec_trailing_ws(t.drop_last())
    }
}

/// A run of `m` whitespace characters followed by a non-whitespace
/// character or the end has leading-whitespace length `m`.
proof fn lemma_leading_ws_is(t: Seq<char>, m: int)
    requires
        0 <= m <= t.len(),
        forall|k: int| 0 <= k < m ==> crate::util::strings::spec_whitespace(t[k]),
        m == t.len() || !crate::util::strings::spec_whitespace(t[m]),
    ensures
        spec_leading_ws(t) == m,
    decreases m,
{
    if m == 0 {
    } else {
        lemma_leading_ws_is(t.drop_first(), m - 1);
    }
}

/// A trailing run of `n - b` whitespace characters preceded by a
/// non-whitespace character or the start has trailing-whitespace length
/// `n - b`.
proof fn lemma_trailing_ws_is(t: Seq<char>, b: int)
    requires
        0 <= b <= t.len(),
        forall|k: int| b <= k < t.len() ==> crate::util::strings::spec_whitespace(t[k]),
        b == 0 || !crate::util::strings::spec_whitespace(t[b - 1]),
    ensures
        spec_trailing_ws(t) == t.len() - b,
    decreases t.len() - b,
{
    if b == t.len() {
    } else {
        assert(t.drop_last() =~= t.subrange(0, t.len() - 1));
        lemma_trailing_ws_is(t.drop_last(), b);
    }
}

/// The characters of `t` with leading and trailing whitespace dropped.
pub open spec fn spec_trim(t: Seq<char>) -> Seq<char> {
    let a = spec_leading_ws(t) as int;
    if a == t.len() {
        seq![]
    } else {
        t.subrange(a, t.len() - spec_trailing_ws(t))
    }
}

/// Drop leading and trailing whitespace.
pub fn trim_chars(s: &str) -> (r: &str)
    ensures
        r@ == spec_trim(s@),
{
    let n = s.unicode_len();
    let mut a: usize = 0;
    while a < n && crate::util::strings::char_is_whitespace(s.get_char(a))
        invariant
            a <= n,
            n == s@.len(),
            forall|k: int| 0 <= k < a ==> crate::util::strings::spec_whitespace(s@[k]),
        decreases n - a,
    {
        a += 1;
    }
    proof {
        lemma_leading_ws_is(s@, a as int);
    }
    if a == n {
        proof {
            assert(s@.subrange(n as int, n as int) =~= spec_trim(s@));
        }
        return s.substring_char(n, n);
    }
    let mut b: usize = n;
    while b > a + 1 && crate::util::strings::char_is_whitespace(s.get_char(b - 1))
        invariant
            a + 1 <= b <= n,
            n == s@.len(),
            forall|k: int| b <= k < n ==> crate::util::strings::spec_whitespace(s@[k]),
        decreases b,
    {
        b -= 1;
    }
    proof {
        if b == a + 1 && crate::util::strings::spec_whitespace(s@[b - 1]) {
            assert(!crate::util::strings::spec_whitespace(s@[a as int]));
            assert(false);
        }
        lemma_trailing_ws_is(s@, b as int);
    }
    s.substring_char(a, b)
}

/// The index of the last `=`, `None` where none occurs.
pub open spec fn spec_last_eq(t: Seq<char>) -> Option<int>
    decreases t.len(),
{
    if t.len() == 0 {
        None
    } else if t.last() == '=' {
        Some(t.len() - 1)
    } else {
        spec_last_eq(t.drop_last())
    }
}

/// An `=` with none after it is the last `=`.
proof fn lemma_last_eq_is(t: Seq<char>, i: int)
    requires
        0 <= i < t.len(),
        t[i] == '=',
        forall|k: int| i < k < t.len() ==> t[k] != '=',
    ensures
        spec_last_eq(t) == Some(i),
    decreases t.len(),
{
    if i == t.len() - 1 {
    } else {
        assert(t.drop_last() =~= t.subrange(0, t.len() - 1));
        lemma_last_eq_is(t.drop_last(), i);
    }
}

/// With no `=` at all, there is no last `=`.
proof fn lemma_last_eq_none(t: Seq<char>)
    requires
        forall|k: int| 0 <= k < t.len() ==> t[k] != '=',
    ensures
        spec_last_eq(t) is None,
    decreases t.len(),
{
    if t.len() > 0 {
        assert(t.drop_last() =~= t.subrange(0, t.len() - 1));
        lemma_last_eq_none(t.drop_last());
    }
}

/// Whether the trimmed line starts with the inline directive: the word
/// `@inline@` in any letter case, then one space.
pub open spec fn spec_is_inline(t: Seq<char>) -> bool {
    &&& t.len() >= 10
    &&& t[0] == '@'
    &&& (t[1] == 'i' || t[1] == 'I')
    &&& (t[2] == 'n' || t[2] == 'N')
    &&& (t[3] == 'l' || t[3] == 'L')
    &&& (t[4] == 'i' || t[4] == 'I')
    &&& (t[5] == 'n' || t[5] == 'N')
    &&& (t[6] == 'e' || t[6] == 'E')
    &&& t[7] == '@'
    &&& t[8] == ' '
}

/// One line of a configuration file, classified; text fields are given
/// as specification values.
pub ghost enum ConfigLineView {
    /// Nothing on the line.
    Blank,
    /// A comment: `#` or `%` first.
    Comment,
    /// A section heading: `[name]`.
    Section { name: Seq<char> },
    /// A `key = value` entry; key and value are trimmed.
    KeyValue { key: Seq<char>, value: Seq<char> },
    /// An `@inline@ file` directive.
    Inline { filename: Seq<char> },
    /// A line that fits no rule of the grammar.
    Bad,
}

/// What a raw line of configuration text means.
pub open spec fn spec_classify_line(raw: Seq<char>) -> ConfigLineView {
    let t = spec_trim(raw);
    if t.len() == 0 {
        ConfigLineView::Blank
    } else if t[0] == '#' || t[0] == '%' {
        ConfigLineView::Comment
    } else if spec_is_inline(t) {
        ConfigLineView::Inline { filename: spec_trim(t.subrange(9, t.len() as int)) }
    } else if t[0] == '[' && t.last() == ']' && t.len() >= 3 {
        ConfigLineView::Section { name: t.subrange(1, t.len() - 1) }
    } else {
        match spec_last_eq(t) {
            Some(i) => if i >= 1 {
                ConfigLineView::KeyValue {
                    key: spec_trim(t.subrange(0, i)),
                    value: spec_trim(t.subrange(i + 1, t.len() as int)),
                }
            } else {
                ConfigLineView::Bad
            },
            None => ConfigLineView::Bad,
        }
    }
}

/// One line of a configuration file, classified.
#[derive(Debug)]
pub enum ConfigLine {
    /// Nothing on the line.
    Blank,
    /// A comment: `#` or `%` first.
    Comment,
    /// A section heading: `[name]`.
    Section {
        /// The name between the brackets.
        name: String,
    },
    /// A `key = value` entry; key and value are trimmed.
    KeyValue {
        /// The key, left of the last `=`.
        key: String,
        /// The value, right of the last `=`.
        value: String,
    },
    /// An `@inline@ file` directive.
    Inline {
        /// The named file.
        filename: String,
    },
    /// A line that fits no rule of the grammar.
    Bad,
}

/// Classify one raw line of configuration text: blank and comment lines
/// are ignored, a bracketed line opens a section, a line with `=` stores
/// an entry under the section, an `@inline@` directive names another file
/// to fold in, and anything else is a syntax error.
pub fn classify_line(raw: &str) -> (r: ConfigLine)
    ensures
        match r {
            ConfigLine::Blank => spec_classify_line(raw@) is Blank,
            ConfigLine::Comment => spec_classify_line(raw@) is Comment,
            ConfigLine::Section { name } => spec_classify_line(raw@) matches ConfigLineView::Section {
                name: sn } && name@ == sn,
            ConfigLine::KeyValue { key, value } => spec_classify_line(raw@)
                matches ConfigLineView::KeyValue { key: sk, value: sv } && key@ == sk && value@
                == sv,
            ConfigLine::Inline { filename } => spec_classify_line(raw@)
                matches ConfigLineView::Inline { filename: sf } && filename@ == sf,
            ConfigLine::Bad => spec_classify_line(raw@) is Bad,
        },
{
    let t = trim_chars(raw);
    let n = t.unicode_len();
    if n == 0 {
        return ConfigLine::Blank;
    }
    let c0 = t.get_char(0);
    if c0 == '#' || c0 == '%' {
        return ConfigLine::Comment;
    }
    let inline = n >= 10 && {
        let c1 = t.get_char(1);
        let c2 = t.get_char(2);
        let c3 = t.get_char(3);
        let c4 = t.get_char(4);
        let c5 = t.get_char(5);
        let c6 = t.get_char(6);
        c0 == '@' && (c1 == 'i' || c1 == 'I') && (c2 == 'n' || c2 == 'N') && (c3 == 'l' || c3
            == 'L') && (c4 == 'i' || c4 == 'I') && (c5 == 'n' || c5 == 'N') && (c6 == 'e' || c6
            == 'E') && t.get_char(7) == '@' && t.get_char(8) == ' '
    };
    if inline {
        let filename = trim_chars(t.substring_char(9, n));
        return ConfigLine::Inline { filename: filename.to_owned() };
    }
    if c0 == '[' && t.get_char(n - 1) == ']' && n >= 3 {
        let name = t.substring_char(1, n - 1);
        return ConfigLine::Section { name: name.to_owned() };
    }
    let mut i: usize = n;
    while i > 0
        invariant
            t@ == spec_trim(raw@),
            i <= n,
            n == t@.len(),
            n >= 1,
            t@[0] != '#',
            t@[0] != '%',
            !spec_is_inline(t@),
            !(t@[0] == '[' && t@.last() == ']' && t@.len() >= 3),
            forall|k: int| i <= k < n ==> t@[k] != '=',
        decreases i,
    {
        if t.get_char(i - 1) == '=' {
            proof {
                lemma_last_eq_is(t@, i - 1);
            }
            if i - 1 >= 1 {
                let key = trim_chars(t.substring_char(0, i - 1));
                let value = trim_chars(t.substring_char(i, n));
                return ConfigLine::KeyValue { key: key.to_owned(), value: value.to_owned() };
            }
            return ConfigLine::Bad;
        }
        i -= 1;
    }
    proof {
        lemma_last_eq_none(t@);
    }
    ConfigLine::Bad
}

/// Replacing the entry at one index under the same pair changes exactly
/// that pair's value.
proof fn lemma_config_update(pre: Config, post: Config, i: int)
    requires
        pre.wf(),
        0 <= i < pre.data@.len(),
        post.data@ == pre.data@.update(i, post.data@[i]),
        post.data@[i].section@ == pre.data@[i].section@,
        post.data@[i].key@ == pre.data@[i].key@,
        post.env@ == pre.env@,
    ensures
        post.wf(),
        post.spec_get(pre.data@[i].section@, pre.data@[i].key@) == Some(post.data@[i].value@),
        forall|s: Seq<char>, k: Seq<char>|
            !(s == pre.data@[i].section@ && k == pre.data@[i].key@) ==> #[trigger] post.spec_get(
                s,
                k,
            ) == pre.spec_get(s, k),
        forall|s: Seq<char>| #[trigger] post.spec_has_section(s) == pre.spec_has_section(s),
        forall|n: Seq<char>| #[trigger] post.spec_env_var(n) == pre.spec_env_var(n),
{
    assert(post.wf()) by {
        assert(forall|a: int, b: int|
            0 <= a < b < post.data@.len() ==> !((#[trigger] post.data@[a]).section@ == (
            #[trigger] post.data@[b]).section@ && post.data@[a].key@ == post.data@[b].key@));
    }
    post.lemma_entry_at(i);
    assert forall|s: Seq<char>, k: Seq<char>|
        !(s == pre.data@[i].section@ && k == pre.data@[i].key@) implies #[trigger] post.spec_get(
        s,
        k,
    ) == pre.spec_get(s, k) by {
        lemma_get_same_entries(pre, post, s, k);
    }
    assert forall|s: Seq<char>| #[trigger]
        post.spec_has_section(s) == pre.spec_has_section(s) by {
        if pre.spec_has_section(s) {
            let j = choose|j: int|
                0 <= j < pre.data@.len() && (#[trigger] pre.data@[j]).section@ == s;
            assert(post.data@[j].section@ == s);
        }
        if post.spec_has_section(s) {
            let j = choose|j: int|
                0 <= j < post.data@.len() && (#[trigger] post.data@[j]).section@ == s;
            assert(pre.data@[j].section@ == s);
        }
    }
    assert forall|n: Seq<char>| #[trigger] post.spec_env_var(n) == pre.spec_env_var(n) by {
        lemma_env_same(pre, post, n);
    }
}

/// Two stores whose entries agree on every pair other than one agree on
/// every other pair's value.
proof fn lemma_get_same_entries(pre: Config, post: Config, s: Seq<char>, k: Seq<char>)
    requires
        pre.wf(),
        post.wf(),
        post.data@.len() == pre.data@.len(),
        forall|j: int|
            0 <= j < pre.data@.len() ==> (#[trigger] post.data@[j]).section@
                == pre.data@[j].section@ && post.data@[j].key@ == pre.data@[j].key@,
        forall|j: int|
            0 <= j < pre.data@.len() ==> ((#[trigger] pre.data@[j]).section@ == s
                && pre.data@[j].key@ == k ==> post.data@[j].value@ == pre.data@[j].value@),
    ensures
        post.spec_get(s, k) == pre.spec_get(s, k),
{
    if pre.spec_get(s, k) is Some {
        let j = choose|j: int|
            0 <= j < pre.data@.len() && (#[trigger] pre.data@[j]).section@ == s
                && pre.data@[j].key@ == k;
        pre.lemma_entry_at(j);
        post.lemma_entry_at(j);
    } else {
        if post.spec_get(s, k) is Some {
            let j = choose|j: int|
                0 <= j < post.data@.len() && (#[trigger] post.data@[j]).section@ == s
                    && post.data@[j].key@ == k;
            assert(pre.data@[j].section@ == s && pre.data@[j].key@ == k);
        }
    }
}

/// Stores with the same environment list answer alike for every name.
proof fn lemma_env_same(pre: Config, post: Config, n: Seq<char>)
    requires
        post.env@ == pre.env@,
    ensures
        post.spec_env_var(n) == pre.spec_env_var(n),
{
}

/// Pushing an entry for a fresh pair adds exactly that pair.
proof fn lemma_config_push(pre: Config, post: Config)
    requires
        pre.wf(),
        post.data@.len() == pre.data@.len() + 1,
        post.data@ == pre.data@.push(post.data@[pre.data@.len() as int]),
        !exists|i: int|
            0 <= i < pre.data@.len() && (#[trigger] pre.data@[i]).section@
                == post.data@[pre.data@.len() as int].section@ && pre.data@[i].key@
                == post.data@[pre.data@.len() as int].key@,
        post.env@ == pre.env@,
    ensures
        post.wf(),
        post.spec_get(
            post.data@[pre.data@.len() as int].section@,
            post.data@[pre.data@.len() as int].key@,
        ) == Some(post.data@[pre.data@.len() as int].value@),
        forall|s: Seq<char>, k: Seq<char>|
            !(s == post.data@[pre.data@.len() as int].section@ && k
                == post.data@[pre.data@.len() as int].key@) ==> #[trigger] post.spec_get(s, k)
                == pre.spec_get(s, k),
        forall|s: Seq<char>|
            #[trigger] post.spec_has_section(s) == (pre.spec_has_section(s) || s
                == post.data@[pre.data@.len() as int].section@),
        forall|n: Seq<char>| #[trigger] post.spec_env_var(n) == pre.spec_env_var(n),
{
    let m = pre.data@.len() as int;
    let e = post.data@[m];
    assert(post.wf()) by {
        assert(forall|a: int, b: int|
            0 <= a < b < post.data@.len() ==> !((#[trigger] post.data@[a]).section@ == (
            #[trigger] post.data@[b]).section@ && post.data@[a].key@ == post.data@[b].key@));
    }
    post.lemma_entry_at(m);
    assert forall|s: Seq<char>, k: Seq<char>|
        !(s == e.section@ && k == e.key@) implies #[trigger] post.spec_get(s, k) == pre.spec_get(
        s,
        k,
    ) by {
        if pre.spec_get(s, k) is Some {
            let j = choose|j: int|
                0 <= j < pre.data@.len() && (#[trigger] pre.data@[j]).section@ == s
                    && pre.data@[j].key@ == k;
            pre.lemma_entry_at(j);
            assert(post.data@[j] == pre.data@[j]);
            post.lemma_entry_at(j);
        } else {
            if post.spec_get(s, k) is Some {
                let j = choose|j: int|
                    0 <= j < post.data@.len() && (#[trigger] post.data@[j]).section@ == s
                        && post.data@[j].key@ == k;
                assert(j < m ==> pre.data@[j].section@ == s && pre.data@[j].key@ == k);
            }
        }
    }
    assert forall|s: Seq<char>| #[trigger]
        post.spec_has_section(s) == (pre.spec_has_section(s) || s == e.section@) by {
        if pre.spec_has_section(s) {
            let j = choose|j: int|
                0 <= j < pre.data@.len() && (#[trigger] pre.data@[j]).section@ == s;
            assert(post.data@[j].section@ == s);
        }
        if post.spec_has_section(s) {
            let j = choose|j: int|
                0 <= j < post.data@.len() && (#[trigger] post.data@[j]).section@ == s;
            assert(j < m ==> pre.data@[j].section@ == s);
        }
    }
    assert forall|n: Seq<char>| #[trigger] post.spec_env_var(n) == pre.spec_env_var(n) by {
        lemma_env_same(pre, post, n);
    }
}

/// Replacing the environment entry at one index under the same name
/// changes exactly that name's value.
proof fn lemma_config_env_update(pre: Config, post: Config, i: int, name: Seq<char>)
    requires
        pre.wf(),
        0 <= i < pre.env@.len(),
        pre.env@[i].0@ == name,
        post.env@ == pre.env@.update(i, post.env@[i]),
        post.env@[i].0@ == name,
        post.data@ == pre.data@,
    ensures
        post.wf(),
        post.spec_env_var(name) == Some(post.env@[i].1@),
        forall|n: Seq<char>|
            n != name ==> #[trigger] post.spec_env_var(n) == pre.spec_env_var(n),
        forall|s: Seq<char>, k: Seq<char>| #[trigger] post.spec_get(s, k) == pre.spec_get(s, k),
        forall|s: Seq<char>| #[trigger] post.spec_has_section(s) == pre.spec_has_section(s),
{
    assert(post.wf()) by {
        assert(forall|a: int, b: int|
            0 <= a < b < post.env@.len() ==> (#[trigger] post.env@[a]).0@ != (
            #[trigger] post.env@[b]).0@);
    }
    post.lemma_env_at(i);
    assert forall|n: Seq<char>| n != name implies #[trigger] post.spec_env_var(n)
        == pre.spec_env_var(n) by {
        if pre.spec_env_var(n) is Some {
            let j = choose|j: int| 0 <= j < pre.env@.len() && (#[trigger] pre.env@[j]).0@ == n;
            pre.lemma_env_at(j);
            assert(post.env@[j] == pre.env@[j]);
            post.lemma_env_at(j);
        } else {
            if post.spec_env_var(n) is Some {
                let j = choose|j: int|
                    0 <= j < post.env@.len() && (#[trigger] post.env@[j]).0@ == n;
                assert(pre.env@[j].0@ == n);
            }
        }
    }
}

/// Pushing an environment entry for a fresh name adds exactly that name.
proof fn lemma_config_env_push(pre: Config, post: Config, name: Seq<char>)
    requires
        pre.wf(),
        post.env@.len() == pre.env@.len() + 1,
        post.env@ == pre.env@.push(post.env@[pre.env@.len() as int]),
        post.env@[pre.env@.len() as int].0@ == name,
        forall|i: int| 0 <= i < pre.env@.len() ==> (#[trigger] pre.env@[i]).0@ != name,
        post.data@ == pre.data@,
    ensures
        post.wf(),
        post.spec_env_var(name) == Some(post.env@[pre.env@.len() as int].1@),
        forall|n: Seq<char>|
            n != name ==> #[trigger] post.spec_env_var(n) == pre.spec_env_var(n),
        forall|s: Seq<char>, k: Seq<char>| #[trigger] post.spec_get(s, k) == pre.spec_get(s, k),
        forall|s: Seq<char>| #[trigger] post.spec_has_section(s) == pre.spec_has_section(s),
{
    let m = pre.env@.len() as int;
    assert(post.wf()) by {
        assert(forall|a: int, b: int|
            0 <= a < b < post.env@.len() ==> (#[trigger] post.env@[a]).0@ != (
            #[trigger] post.env@[b]).0@);
    }
    post.lemma_env_at(m);
    assert forall|n: Seq<char>| n != name implies #[trigger] post.spec_env_var(n)
        == pre.spec_env_var(n) by {
        if pre.spec_env_var(n) is Some {
            let j = choose|j: int| 0 <= j < pre.env@.len() && (#[trigger] pre.env@[j]).0@ == n;
            pre.lemma_env_at(j);
            assert(post.env@[j] == pre.env@[j]);
            post.lemma_env_at(j);
        } else {
            if post.spec_env_var(n) is Some {
                let j = choose|j: int|
                    0 <= j < post.env@.len() && (#[trigger] post.env@[j]).0@ == n;
                assert(j < m ==> pre.env@[j].0@ == n);
            }
        }
    }
}

} // verus!
