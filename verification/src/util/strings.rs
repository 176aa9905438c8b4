//! String utilities: the Crockford base32 text form of binary values, and
//! parsing of quantities with units.

use vstd::prelude::*;
use vstd::string::StrSliceExecFns;
use vstd::string::StringExecFns;

verus! {

#[verifier::external_type_specification]
#[verifier::external_body]
/// `core::num::ParseIntError`, carried opaquely inside error values.
pub struct ExParseIntError(core::num::ParseIntError);

/// The value of a decimal digit sequence, `None` where the sequence is
/// empty or holds a non-digit.
pub open spec fn spec_digits_value(t: Seq<char>) -> Option<int>
    decreases t.len(),
{
    if t.len() == 0 {
        None
    } else if !('0' <= t.last() <= '9') {
        None
    } else if t.len() == 1 {
        Some(t.last() as int - '0' as int)
    } else {
        match spec_digits_value(t.drop_last()) {
            None => None,
            Some(v) => Some(v * 10 + (t.last() as int - '0' as int)),
        }
    }
}

/// The number an unsigned decimal literal denotes: an optional plus sign,
/// then digits; `None` where the text is not such a literal or the value
/// exceeds `u64::MAX`.
pub open spec fn spec_parse_u64(t: Seq<char>) -> Option<u64> {
    let digits = if t.len() > 0 && t[0] == '+' {
        t.drop_first()
    } else {
        t
    };
    match spec_digits_value(digits) {
        None => None,
        Some(v) => if v <= u64::MAX {
            Some(v as u64)
        } else {
            None
        },
    }
}

/// Relies on `str::parse::<u64>` (`u64::from_str`): accepts an optional
/// plus sign followed by decimal digits, and rejects values beyond
/// `u64::MAX`.
#[verifier::external_body]
pub(crate) fn parse_u64(s: &str) -> (r: Result<u64, core::num::ParseIntError>)
    ensures
        match r {
            Ok(v) => spec_parse_u64(s@) == Some(v),
            Err(_) => spec_parse_u64(s@) is None,
        },
{
    s.parse::<u64>()
}

/// The character sequences of a list of strings.
pub open spec fn token_views(toks: Seq<String>) -> Seq<Seq<char>> {
    toks.map_values(|t: String| t@)
}

/// The character-level unit table of a runtime unit table.
pub open spec fn unit_views(units: Seq<(&str, u64)>) -> Seq<(Seq<char>, u64)> {
    units.map_values(|u: (&str, u64)| (u.0@, u.1))
}

/// Whether a character counts as alphanumeric; a function of the
/// character alone.
pub uninterp spec fn spec_alphanumeric(c: char) -> bool;

/// Relies on `char::is_alphanumeric`: a fixed classification of each
/// character.
#[verifier::external_body]
pub(crate) fn char_is_alphanumeric(c: char) -> (r: bool)
    ensures
        r == spec_alphanumeric(c),
{
    c.is_alphanumeric()
}

/// Whether a character counts as whitespace; a function of the character
/// alone.
pub uninterp spec fn spec_whitespace(c: char) -> bool;

/// Relies on `char::is_whitespace`: a fixed classification of each
/// character.
#[verifier::external_body]
pub(crate) fn char_is_whitespace(c: char) -> (r: bool)
    ensures
        r == spec_whitespace(c),
{
    c.is_whitespace()
}

/// Relies on `String::push`: appends exactly the one character.
#[verifier::external_body]
pub(crate) fn string_push_char(s: &mut String, c: char)
    ensures
        final(s)@ == old(s)@ + seq![c],
{
    s.push(c);
}

/// Whether two string slices hold the same characters.
pub fn str_eq(a: &str, b: &str) -> (r: bool)
    ensures
        r == (a@ == b@),
{
    let an = a.unicode_len();
    let bn = b.unicode_len();
    if an != bn {
        return false;
    }
    let mut i: usize = 0;
    while i < an
        invariant
            an == a@.len(),
            an == b@.len(),
            i <= an,
            forall|j: int| 0 <= j < i ==> a@[j] == b@[j],
        decreases an - i,
    {
        if a.get_char(i) != b.get_char(i) {
            return false;
        }
        i += 1;
    }
    proof {
        assert(a@ =~= b@);
    }
    true
}

/// The length of the leading run of non-space characters.
pub open spec fn spec_token_len(t: Seq<char>) -> nat
    decreases t.len(),
{
    if t.len() == 0 || t[0] == ' ' {
        0
    } else {
        1 + spec_token_len(t.drop_first())
    }
}

/// The token length never exceeds the sequence.
proof fn lemma_token_len_bounds(t: Seq<char>)
    ensures
        spec_token_len(t) <= t.len(),
    decreases t.len(),
{
    if t.len() == 0 || t[0] == ' ' {
    } else {
        lemma_token_len_bounds(t.drop_first());
    }
}

/// A run of `m` non-space characters followed by a space or the end has
/// token length `m`.
proof fn lemma_token_len_is(t: Seq<char>, m: int)
    requires
        0 <= m <= t.len(),
        forall|k: int| 0 <= k < m ==> t[k] != ' ',
        m == t.len() || t[m] == ' ',
    ensures
        spec_token_len(t) == m,
    decreases m,
{
    if m == 0 {
    } else {
        lemma_token_len_is(t.drop_first(), m - 1);
    }
}

/// The space-separated words of a character sequence, empties dropped.
pub open spec fn spec_tokens(s: Seq<char>) -> Seq<Seq<char>>
    decreases s.len(),
    via spec_tokens_dec
{
    if s.len() == 0 {
        seq![]
    } else if s[0] == ' ' {
        spec_tokens(s.drop_first())
    } else {
        let n = spec_token_len(s);
        seq![s.subrange(0, n as int)] + spec_tokens(s.subrange(n as int, s.len() as int))
    }
}

#[via_fn]
proof fn spec_tokens_dec(s: Seq<char>) {
    if s.len() != 0 && s[0] != ' ' {
        lemma_token_len_bounds(s);
    }
}

/// The words of a character sequence, as runtime strings.
pub fn tokenize(s: &str) -> (r: Vec<String>)
    ensures
        token_views(r@) == spec_tokens(s@),
{
    let n = s.unicode_len();
    let mut toks: Vec<String> = Vec::new();
    let mut i: usize = 0;
    proof {
        assert(s@.subrange(0, n as int) =~= s@);
        assert(token_views(toks@) + spec_tokens(s@) =~= spec_tokens(s@));
    }
    while i < n
        invariant
            n == s@.len(),
            i <= n,
            spec_tokens(s@) == token_views(toks@) + spec_tokens(
                s@.subrange(i as int, n as int),
            ),
        decreases n - i,
    {
        let c = s.get_char(i);
        if c == ' ' {
            proof {
                let rest = s@.subrange(i as int, n as int);
                assert(rest.drop_first() =~= s@.subrange(i + 1, n as int));
            }
            i += 1;
        } else {
            let mut j: usize = i + 1;
            while j < n && s.get_char(j) != ' '
                invariant
                    n == s@.len(),
                    i < j <= n,
                    forall|k: int| i <= k < j ==> s@[k] != ' ',
                decreases n - j,
            {
                j += 1;
            }
            let tok = s.substring_char(i, j).to_owned();
            proof {
                let rest = s@.subrange(i as int, n as int);
                assert(forall|k: int| 0 <= k < j - i ==> rest[k] != ' ');
                assert(j - i == rest.len() || rest[j - i] == ' ');
                lemma_token_len_is(rest, j - i);
                assert(rest.subrange(0, j - i) =~= s@.subrange(i as int, j as int));
                assert(rest.subrange(j - i, rest.len() as int) =~= s@.subrange(
                    j as int,
                    n as int,
                ));
                assert(token_views(toks@).push(s@.subrange(i as int, j as int)) =~= token_views(
                    toks@.push(tok),
                ));
                assert(token_views(toks@) + seq![s@.subrange(i as int, j as int)] + spec_tokens(
                    s@.subrange(j as int, n as int),
                ) =~= token_views(toks@).push(s@.subrange(i as int, j as int)) + spec_tokens(
                    s@.subrange(j as int, n as int),
                ));
            }
            toks.push(tok);
            i = j;
        }
    }
    proof {
        assert(s@.subrange(i as int, n as int).len() == 0);
        assert(token_views(toks@) + spec_tokens(s@.subrange(i as int, n as int)) =~= token_views(
            toks@,
        ));
    }
    toks
}

/// The Crockford base32 text of a byte sequence; a function of the bytes
/// alone.
pub uninterp spec fn crockford_encoding(b: Seq<u8>) -> Seq<char>;

/// The bytes a Crockford base32 text decodes to, `None` where the text is
/// not Crockford base32; a function of the text alone.
pub uninterp spec fn crockford_decoding(s: Seq<char>) -> Option<Seq<u8>>;

/// Relies on `base32::encode` with the Crockford alphabet: the text is a
/// function of the input bytes alone.
#[verifier::external_body]
pub fn crockford_base32_encode(b: &[u8]) -> (r: String)
    ensures
        r@ == crockford_encoding(b@),
{
    base32::encode(base32::Alphabet::Crockford, b)
}

/// Relies on `base32::decode` with the Crockford alphabet: succeeds or
/// fails, and with which bytes, as a function of the text alone.
#[verifier::external_body]
pub fn crockford_base32_decode(s: &str) -> (r: Option<Vec<u8>>)
    ensures
        match r {
            Some(v) => crockford_decoding(s@) == Some(v@),
            None => crockford_decoding(s@) is None,
        },
{
    base32::decode(base32::Alphabet::Crockford, s)
}

/// The multiplier of the first unit named `t`, scanning the table in
/// order; `None` where no unit has that name.
pub open spec fn spec_unit_value(units: Seq<(Seq<char>, u64)>, t: Seq<char>) -> Option<u64>
    decreases units.len(),
{
    if units.len() == 0 {
        None
    } else if units[0].0 == t {
        Some(units[0].1)
    } else {
        spec_unit_value(units.drop_first(), t)
    }
}

/// What, if anything, goes wrong reading a word list as amount/unit
/// pairs.
pub ghost enum QuantityIssue {
    /// A word in amount position is not a decimal number.
    BadAmount,
    /// A final amount has no unit after it.
    AmountWithoutUnit,
    /// A word in unit position names no unit of the table.
    UnknownUnit { unit: Seq<char> },
}

/// The first issue in reading the words as amount/unit pairs, `None`
/// where the words parse cleanly.
pub open spec fn spec_quantity_issue(toks: Seq<Seq<char>>, units: Seq<(Seq<char>, u64)>) -> Option<
    QuantityIssue,
>
    decreases toks.len(),
{
    if toks.len() == 0 {
        None
    } else if spec_parse_u64(toks[0]) is None {
        Some(QuantityIssue::BadAmount)
    } else if toks.len() == 1 {
        Some(QuantityIssue::AmountWithoutUnit)
    } else if spec_unit_value(units, toks[1]) is None {
        Some(QuantityIssue::UnknownUnit { unit: toks[1] })
    } else {
        spec_quantity_issue(toks.skip(2), units)
    }
}

/// The product saturated at `u64::MAX`.
pub open spec fn spec_sat_mul(a: u64, b: u64) -> u64 {
    if a * b > u64::MAX {
        u64::MAX
    } else {
        (a * b) as u64
    }
}

/// The sum saturated at `u64::MAX`.
pub open spec fn spec_sat_add(a: u64, b: u64) -> u64 {
    if a + b > u64::MAX {
        u64::MAX
    } else {
        (a + b) as u64
    }
}

/// The total of the amount/unit pairs in the words, added onto `acc`;
/// `None` where the words do not parse cleanly.  Additions and products
/// saturate at `u64::MAX`.
pub open spec fn spec_quantity_value(
    toks: Seq<Seq<char>>,
    units: Seq<(Seq<char>, u64)>,
    acc: u64,
) -> Option<u64>
    decreases toks.len(),
{
    if toks.len() == 0 {
        Some(acc)
    } else {
        match spec_parse_u64(toks[0]) {
            None => None,
            Some(amount) => if toks.len() == 1 {
                None
            } else {
                match spec_unit_value(units, toks[1]) {
                    None => None,
                    Some(multiplier) => spec_quantity_value(
                        toks.skip(2),
                        units,
                        spec_sat_add(acc, spec_sat_mul(amount, multiplier)),
                    ),
                }
            },
        }
    }
}

/// What a quantity string parses to: the saturated total of its
/// amount/unit pairs, `None` where it is all whitespace or does not
/// parse.
pub open spec fn spec_parse_quantity(s: Seq<char>, units: Seq<(Seq<char>, u64)>) -> Option<u64> {
    if spec_all_whitespace(s) {
        None
    } else {
        spec_quantity_value(spec_tokens(s), units, 0)
    }
}

/// The words fail to parse exactly when there is an issue to report.
pub proof fn lemma_quantity_issue_value(
    toks: Seq<Seq<char>>,
    units: Seq<(Seq<char>, u64)>,
    acc: u64,
)
    ensures
        (spec_quantity_value(toks, units, acc) is None) <==> (spec_quantity_issue(toks, units)
            is Some),
    decreases toks.len(),
{
    if toks.len() == 0 {
    } else if spec_parse_u64(toks[0]) is None {
    } else if toks.len() == 1 {
    } else if spec_unit_value(units, toks[1]) is None {
    } else {
        let amount = spec_parse_u64(toks[0]).unwrap();
        let multiplier = spec_unit_value(units, toks[1]).unwrap();
        lemma_quantity_issue_value(
            toks.skip(2),
            units,
            spec_sat_add(acc, spec_sat_mul(amount, multiplier)),
        );
    }
}

/// Whether every character of `s` is a space or other whitespace; an
/// empty string counts.
pub open spec fn spec_all_whitespace(s: Seq<char>) -> bool {
    forall|i: int| 0 <= i < s.len() ==> (#[trigger] s[i]) == ' ' || spec_whitespace(s[i])
}

/// Whether every character of `s` is a space or other whitespace.
fn is_all_whitespace(s: &str) -> (r: bool)
    ensures
        r == spec_all_whitespace(s@),
{
    let n = s.unicode_len();
    let mut i: usize = 0;
    while i < n
        invariant
            n == s@.len(),
            i <= n,
            forall|j: int| 0 <= j < i ==> (#[trigger] s@[j]) == ' ' || spec_whitespace(s@[j]),
        decreases n - i,
    {
        let c = s.get_char(i);
        if c != ' ' && !char_is_whitespace(c) {
            return false;
        }
        i += 1;
    }
    true
}

/// A sequence with a non-space character somewhere has at least one word.
proof fn lemma_tokens_nonempty(s: Seq<char>, i: int)
    requires
        0 <= i < s.len(),
        s[i] != ' ',
    ensures
        spec_tokens(s).len() > 0,
    decreases i,
{
    if s[0] != ' ' {
    } else {
        assert(s.drop_first()[i - 1] == s[i]);
        lemma_tokens_nonempty(s.drop_first(), i - 1);
    }
}

/// Error parsing a quantity with units.
#[derive(Debug)]
pub enum ParseQuantityWithUnitsError {
    /// A word in amount position is not a decimal number.
    ParseInt {
        /// The underlying error.
        source: core::num::ParseIntError,
    },
    /// The string holds no words at all.
    EmptyString,
    /// A final amount has no unit after it.
    MissingUnit,
    /// A word in unit position names no unit of the table.
    NoSuchUnit {
        /// The offending word.
        unit: String,
    },
}

/// Look a word up in the unit table.
fn unit_value(units: &[(&str, u64)], t: &str) -> (r: Option<u64>)
    ensures
        r == spec_unit_value(unit_views(units@), t@),
{
    let ghost uv = unit_views(units@);
    let mut k: usize = 0;
    proof {
        assert(uv.skip(0) =~= uv);
    }
    while k < units.len()
        invariant
            uv == unit_views(units@),
            k <= uv.len(),
            uv.len() == units@.len(),
            spec_unit_value(uv, t@) == spec_unit_value(uv.skip(k as int), t@),
        decreases uv.len() - k,
    {
        proof {
            assert(uv.skip(k as int).len() > 0);
            assert(uv.skip(k as int)[0] == uv[k as int]);
            assert(uv.skip(k as int).drop_first() =~= uv.skip(k + 1));
        }
        if str_eq(units[k].0, t) {
            return Some(units[k].1);
        }
        k += 1;
    }
    proof {
        assert(uv.skip(k as int).len() == 0);
    }
    None
}

/// Parse a string of amount/unit pairs — `"3 min 10 s"` — into the sum
/// of each amount times its unit's multiplier.  Amounts are decimal;
/// units come from the given table; the sum and each product saturate at
/// `u64::MAX`.  Errors, in the order they are detected: no words at all;
/// a bad amount; an amount with no unit after it; an unknown unit.
pub fn parse_quantity_with_units(s: &str, units: &[(&str, u64)]) -> (r: Result<
    u64,
    ParseQuantityWithUnitsError,
>)
    ensures
        ({
            let toks = spec_tokens(s@);
            let uv = unit_views(units@);
            match r {
                Ok(v) => !spec_all_whitespace(s@) && spec_quantity_value(toks, uv, 0) == Some(v),
                Err(ParseQuantityWithUnitsError::EmptyString) => spec_all_whitespace(s@),
                Err(ParseQuantityWithUnitsError::ParseInt { .. }) => !spec_all_whitespace(s@)
                    && spec_quantity_issue(toks, uv) == Some(QuantityIssue::BadAmount),
                Err(ParseQuantityWithUnitsError::MissingUnit) => !spec_all_whitespace(s@)
                    && spec_quantity_issue(toks, uv) == Some(QuantityIssue::AmountWithoutUnit),
                Err(ParseQuantityWithUnitsError::NoSuchUnit { unit }) => !spec_all_whitespace(s@)
                    && spec_quantity_issue(toks, uv) == Some(
                    QuantityIssue::UnknownUnit { unit: unit@ },
                ),
            }
        }),
{
    let ghost uv = unit_views(units@);
    if is_all_whitespace(s) {
        return Err(ParseQuantityWithUnitsError::EmptyString);
    }
    let toks = tokenize(s);
    let ghost tv = spec_tokens(s@);
    proof {
        let i = choose|i: int|
            0 <= i < s@.len() && !((#[trigger] s@[i]) == ' ' || spec_whitespace(s@[i]));
        lemma_tokens_nonempty(s@, i);
    }
    let mut result: u64 = 0;
    let mut k: usize = 0;
    proof {
        assert(tv.skip(0) =~= tv);
    }
    while k < toks.len()
        invariant
            !spec_all_whitespace(s@),
            uv == unit_views(units@),
            tv == spec_tokens(s@),
            tv == token_views(toks@),
            k <= toks@.len(),
            spec_quantity_value(tv, uv, 0) == spec_quantity_value(tv.skip(k as int), uv, result),
            spec_quantity_issue(tv, uv) == spec_quantity_issue(tv.skip(k as int), uv),
        decreases toks@.len() - k,
    {
        proof {
            assert(tv.skip(k as int)[0] == tv[k as int]);
            assert(tv[k as int] == toks@[k as int]@);
        }
        let amount = match parse_u64(toks[k].as_str()) {
            Ok(a) => a,
            Err(source) => {
                proof {
                    assert(spec_parse_u64(tv.skip(k as int)[0]) is None);
                    assert(spec_quantity_issue(tv.skip(k as int), uv) == Some(
                        QuantityIssue::BadAmount,
                    ));
                }
                return Err(ParseQuantityWithUnitsError::ParseInt { source });
            },
        };
        if k + 1 >= toks.len() {
            proof {
                assert(tv.skip(k as int).len() == 1);
                assert(spec_quantity_issue(tv.skip(k as int), uv) == Some(
                    QuantityIssue::AmountWithoutUnit,
                ));
            }
            return Err(ParseQuantityWithUnitsError::MissingUnit);
        }
        proof {
            assert(tv.skip(k as int)[1] == tv[k + 1]);
            assert(tv[k + 1] == toks@[k + 1]@);
        }
        let multiplier = match unit_value(units, toks[k + 1].as_str()) {
            Some(m) => m,
            None => {
                return Err(
                    ParseQuantityWithUnitsError::NoSuchUnit { unit: toks[k + 1].clone() },
                );
            },
        };
        let product = match amount.checked_mul(multiplier) {
            Some(p) => p,
            None => u64::MAX,
        };
        result = match result.checked_add(product) {
            Some(v) => v,
            None => u64::MAX,
        };
        proof {
            assert(tv.skip(k as int).skip(2) =~= tv.skip(k + 2));
        }
        k += 2;
    }
    proof {
        assert(tv.skip(k as int).len() == 0);
    }
    Ok(result)
}

} // verus!
