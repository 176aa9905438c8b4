//! Byte-level serialization helpers shared by every message codec: big-endian
//! integer fields, bounds-checked splitting, and NUL-terminated strings.
//!
//! Every multi-byte integer on the wire is big-endian.  The spec functions
//! `be16`, `be32` and `be64` give the byte image of a value; `be16_val`,
//! `be32_val` and `be64_val` read it back.

use vstd::prelude::*;
use vstd::std_specs::cmp::PartialEqSpec;
use vstd::string::StringSliceAdditionalSpecFns;
use vstd::utf8::decode_utf8;
use vstd::utf8::valid_utf8;

verus! {

/// No element of the first `n` of `s` equals `m`, as `==` means it.
pub open spec fn no_match_before<T: PartialEqSpec>(s: Seq<T>, m: T, n: int) -> bool {
    forall|j: int| 0 <= j < n ==> !s[j].eq_spec(&m)
}

/// The index of the first zero byte, `None` where none occurs.
pub open spec fn spec_first_nul(b: Seq<u8>) -> Option<int>
    decreases b.len(),
{
    if b.len() == 0 {
        None
    } else if b[0] == 0 {
        Some(0)
    } else {
        match spec_first_nul(b.drop_first()) {
            None => None,
            Some(i) => Some(i + 1),
        }
    }
}

/// What `spec_first_nul` finds: the first zero byte, with none before it;
/// or that no byte is zero.
pub proof fn lemma_first_nul_props(b: Seq<u8>)
    ensures
        match spec_first_nul(b) {
            Some(i) => 0 <= i < b.len() && b[i] == 0 && forall|j: int| 0 <= j < i ==> b[j] != 0,
            None => forall|j: int| 0 <= j < b.len() ==> b[j] != 0,
        },
    decreases b.len(),
{
    if b.len() == 0 {
    } else if b[0] == 0 {
    } else {
        lemma_first_nul_props(b.drop_first());
        match spec_first_nul(b.drop_first()) {
            Some(i) => {
                assert(b[i + 1] == b.drop_first()[i]);
                assert forall|j: int| 0 <= j < i + 1 implies b[j] != 0 by {
                    if j > 0 {
                        assert(b.drop_first()[j - 1] != 0);
                    }
                }
            },
            None => {
                assert forall|j: int| 0 <= j < b.len() implies b[j] != 0 by {
                    if j > 0 {
                        assert(b.drop_first()[j - 1] != 0);
                    }
                }
            },
        }
    }
}

/// A zero byte with no zero before it is the first zero byte.
pub proof fn lemma_first_nul_at(b: Seq<u8>, i: int)
    requires
        0 <= i < b.len(),
        b[i] == 0,
        forall|j: int| 0 <= j < i ==> b[j] != 0,
    ensures
        spec_first_nul(b) == Some(i),
{
    lemma_first_nul_props(b);
    match spec_first_nul(b) {
        None => {
            assert(false);
        },
        Some(k) => {
            if k < i {
                assert(b[k] != 0);
            } else if i < k {
                assert(b[i] != 0);
            }
        },
    }
}

/// Split a slice at `i`, or answer `None` where `i` is out of range.
pub fn try_split_at(b: &[u8], i: usize) -> (r: Option<(&[u8], &[u8])>)
    ensures
        match r {
            Some((head, tail)) => i <= b@.len() && head@ == b@.subrange(0, i as int) && tail@
                == b@.subrange(i as int, b@.len() as int),
            None => i > b@.len(),
        },
{
    if i <= b.len() {
        Some(b.split_at(i))
    } else {
        None
    }
}

/// Split a slice around the first element equal to `m`; the matched element
/// is in neither returned part.  `None` where no element matches.
pub fn split_on<T: PartialEqSpec + Copy>(b: &[T], m: T) -> (r: Option<(&[T], &[T])>)
    ensures
        T::obeys_eq_spec() ==> match r {
            Some((head, tail)) => {
                let i = head@.len() as int;
                &&& i < b@.len()
                &&& b@[i].eq_spec(&m)
                &&& no_match_before(b@, m, i)
                &&& head@ == b@.subrange(0, i)
                &&& tail@ == b@.subrange(i + 1, b@.len() as int)
            },
            None => no_match_before(b@, m, b@.len() as int),
        },
{
    let mut i: usize = 0;
    while i < b.len()
        invariant
            i <= b@.len(),
            T::obeys_eq_spec() ==> no_match_before(b@, m, i as int),
        decreases b@.len() - i,
    {
        if b[i] == m {
            let (head, with_match) = b.split_at(i);
            let (_matched, tail) = with_match.split_at(1);
            assert(tail@ =~= b@.subrange(i + 1, b@.len() as int));
            return Some((head, tail));
        }
        i += 1;
    }
    None
}

#[verifier::external_type_specification]
#[verifier::external_body]
/// `core::str::Utf8Error`, carried opaquely inside error values.
pub struct ExUtf8Error(core::str::Utf8Error);

#[verifier::external_type_specification]
#[verifier::external_body]
/// `std::string::FromUtf8Error`, carried opaquely inside error values.
pub struct ExFromUtf8Error(std::string::FromUtf8Error);

/// Relies on `String::from_utf8`: it succeeds exactly on valid UTF-8 and
/// the returned string holds the characters those bytes encode.
#[verifier::external_body]
pub(crate) fn string_from_utf8(v: Vec<u8>) -> (r: Result<String, std::string::FromUtf8Error>)
    ensures
        match r {
            Ok(s) => valid_utf8(v@) && s@ == decode_utf8(v@),
            Err(_) => !valid_utf8(v@),
        },
{
    String::from_utf8(v)
}

/// Relies on `<[u8]>::copy_from_slice`: copies exactly the 32 bytes of
/// the slice into an owned array; the matching lengths rule the panic
/// out.
#[verifier::external_body]
pub(crate) fn bytes_to_array32(b: &[u8]) -> (r: [u8; 32])
    requires
        b@.len() == 32,
    ensures
        r@ == b@,
{
    let mut a = [0u8; 32];
    a.copy_from_slice(b);
    a
}

/// Relies on `str::from_utf8`: it succeeds exactly on valid UTF-8 and the
/// returned string views those same bytes, decoded.
#[verifier::external_body]
pub(crate) fn bytes_to_str(b: &[u8]) -> (r: Option<&str>)
    ensures
        match r {
            Some(s) => valid_utf8(b@) && s.spec_bytes() == b@ && s@ == decode_utf8(b@),
            None => !valid_utf8(b@),
        },
{
    core::str::from_utf8(b).ok()
}

/// Relies on `str::as_bytes`: every string slice is the valid UTF-8
/// encoding of its characters.  The validity and decoding clauses are
/// the string type's own invariant, which no available specification
/// states, so they stay assumed here.
#[verifier::external_body]
pub(crate) fn str_bytes(s: &str) -> (r: &[u8])
    ensures
        r@ == s.spec_bytes(),
        valid_utf8(r@),
        decode_utf8(r@) == s@,
{
    s.as_bytes()
}

/// View a NUL-terminated buffer as text: the final byte must be the NUL
/// terminator and everything before it must be valid UTF-8.  A buffer
/// without its terminator — the empty buffer included — fails rather
/// than being read as text.
pub fn str_from_cstr(b: &[u8]) -> (r: Option<&str>)
    ensures
        match r {
            Some(s) => {
                let body = b@.subrange(0, b@.len() - 1);
                &&& b@.len() >= 1
                &&& b@[b@.len() - 1] == 0
                &&& valid_utf8(body)
                &&& s.spec_bytes() == body
                &&& s@ == decode_utf8(body)
            },
            None => b@.len() == 0 || b@[b@.len() - 1] != 0 || !valid_utf8(
                b@.subrange(0, b@.len() - 1),
            ),
        },
{
    if b.len() == 0 {
        return None;
    }
    if b[b.len() - 1] != 0 {
        return None;
    }
    let (body, _terminator) = b.split_at(b.len() - 1);
    bytes_to_str(body)
}

/// Parse a leading NUL-terminated, non-empty text field; the rest of the
/// buffer follows the terminator.
pub fn parse_leading_cstr(b: &[u8]) -> (r: Option<(&str, &[u8])>)
    ensures
        match r {
            Some((s, rest)) => {
                let i = b@.len() - rest@.len() - 1;
                &&& 1 <= i < b@.len()
                &&& b@[i] == 0
                &&& no_match_before(b@, 0u8, i)
                &&& valid_utf8(b@.subrange(0, i))
                &&& s.spec_bytes() == b@.subrange(0, i)
                &&& s@ == decode_utf8(b@.subrange(0, i))
                &&& rest@ == b@.subrange(i + 1, b@.len() as int)
            },
            None => forall|i: int|
                (0 <= i < b@.len() && b@[i] == 0 && no_match_before(b@, 0u8, i)) ==> (i == 0
                    || !valid_utf8(b@.subrange(0, i))),
        },
{
    match split_on(b, 0u8) {
        None => None,
        Some((head, rest)) => {
            if head.len() == 0 {
                None
            } else {
                match bytes_to_str(head) {
                    None => None,
                    Some(s) => Some((s, rest)),
                }
            }
        },
    }
}

/// The two big-endian bytes of a 16-bit value.
pub open spec fn be16(v: u16) -> Seq<u8> {
    seq![(v >> 8) as u8, v as u8]
}

/// The four big-endian bytes of a 32-bit value.
pub open spec fn be32(v: u32) -> Seq<u8> {
    seq![(v >> 24) as u8, (v >> 16) as u8, (v >> 8) as u8, v as u8]
}

/// The eight big-endian bytes of a 64-bit value.
pub open spec fn be64(v: u64) -> Seq<u8> {
    seq![
        (v >> 56) as u8,
        (v >> 48) as u8,
        (v >> 40) as u8,
        (v >> 32) as u8,
        (v >> 24) as u8,
        (v >> 16) as u8,
        (v >> 8) as u8,
        v as u8,
    ]
}

/// The 16-bit value written big-endian in a two-byte sequence.
pub open spec fn be16_val(b: Seq<u8>) -> u16
    recommends
        b.len() == 2,
{
    (b[0] as u16) << 8 | (b[1] as u16)
}

/// The 32-bit value written big-endian in a four-byte sequence.
pub open spec fn be32_val(b: Seq<u8>) -> u32
    recommends
        b.len() == 4,
{
    (b[0] as u32) << 24 | (b[1] as u32) << 16 | (b[2] as u32) << 8 | (b[3] as u32)
}

/// The 64-bit value written big-endian in an eight-byte sequence.
pub open spec fn be64_val(b: Seq<u8>) -> u64
    recommends
        b.len() == 8,
{
    (b[0] as u64) << 56 | (b[1] as u64) << 48 | (b[2] as u64) << 40 | (b[3] as u64) << 32 | (
    b[4] as u64) << 24 | (b[5] as u64) << 16 | (b[6] as u64) << 8 | (b[7] as u64)
}

/// Reading back the bytes of a value gives the value.
pub broadcast proof fn lemma_be16_roundtrip(v: u16)
    ensures
        be16_val(#[trigger] be16(v)) == v,
{
    assert((((v >> 8) as u8) as u16) << 8 | ((v as u8) as u16) == v) by (bit_vector);
}

/// Reading back the bytes of a value gives the value.
pub broadcast proof fn lemma_be32_roundtrip(v: u32)
    ensures
        be32_val(#[trigger] be32(v)) == v,
{
    assert((((v >> 24) as u8) as u32) << 24 | (((v >> 16) as u8) as u32) << 16 | (((v
        >> 8) as u8) as u32) << 8 | ((v as u8) as u32) == v) by (bit_vector);
}

/// Reading back the bytes of a value gives the value.
pub broadcast proof fn lemma_be64_roundtrip(v: u64)
    ensures
        be64_val(#[trigger] be64(v)) == v,
{
    assert((((v >> 56) as u8) as u64) << 56 | (((v >> 48) as u8) as u64) << 48 | (((v
        >> 40) as u8) as u64) << 40 | (((v >> 32) as u8) as u64) << 32 | (((v
        >> 24) as u8) as u64) << 24 | (((v >> 16) as u8) as u64) << 16 | (((v
        >> 8) as u8) as u64) << 8 | ((v as u8) as u64) == v) by (bit_vector);
}

/// Append the big-endian image of a 16-bit value.
pub fn push_u16_be(out: &mut Vec<u8>, v: u16)
    ensures
        final(out)@ == old(out)@ + be16(v),
{
    out.push((v >> 8) as u8);
    out.push(v as u8);
    assert(out@ =~= old(out)@ + be16(v));
}

/// Append the big-endian image of a 32-bit value.
pub fn push_u32_be(out: &mut Vec<u8>, v: u32)
    ensures
        final(out)@ == old(out)@ + be32(v),
{
    out.push((v >> 24) as u8);
    out.push((v >> 16) as u8);
    out.push((v >> 8) as u8);
    out.push(v as u8);
    assert(out@ =~= old(out)@ + be32(v));
}

/// Append the big-endian image of a 64-bit value.
pub fn push_u64_be(out: &mut Vec<u8>, v: u64)
    ensures
        final(out)@ == old(out)@ + be64(v),
{
    out.push((v >> 56) as u8);
    out.push((v >> 48) as u8);
    out.push((v >> 40) as u8);
    out.push((v >> 32) as u8);
    out.push((v >> 24) as u8);
    out.push((v >> 16) as u8);
    out.push((v >> 8) as u8);
    out.push(v as u8);
    assert(out@ =~= old(out)@ + be64(v));
}

/// Append a whole slice.
pub fn push_bytes(out: &mut Vec<u8>, b: &[u8])
    ensures
        final(out)@ == old(out)@ + b@,
{
    let mut i: usize = 0;
    while i < b.len()
        invariant
            i <= b@.len(),
            out@ == old(out)@ + b@.subrange(0, i as int),
        decreases b@.len() - i,
    {
        out.push(b[i]);
        i += 1;
        assert(out@ =~= old(out)@ + b@.subrange(0, i as int));
    }
    proof {
        assert(old(out)@ + b@.subrange(0, b@.len() as int) =~= old(out)@ + b@);
    }
}

/// Read the big-endian 16-bit field at `off`.
pub fn read_u16_be(b: &[u8], off: usize) -> (r: u16)
    requires
        off + 2 <= b@.len(),
    ensures
        r == be16_val(b@.subrange(off as int, off + 2)),
{
    let r = (b[off] as u16) << 8 | (b[off + 1] as u16);
    proof {
        let s = b@.subrange(off as int, off + 2);
        assert(s[0] == b@[off as int] && s[1] == b@[off as int + 1]);
    }
    r
}

/// Read the big-endian 32-bit field at `off`.
pub fn read_u32_be(b: &[u8], off: usize) -> (r: u32)
    requires
        off + 4 <= b@.len(),
    ensures
        r == be32_val(b@.subrange(off as int, off + 4)),
{
    let r = (b[off] as u32) << 24 | (b[off + 1] as u32) << 16 | (b[off + 2] as u32) << 8 | (b[off
        + 3] as u32);
    proof {
        let s = b@.subrange(off as int, off + 4);
        assert(s[0] == b@[off as int] && s[1] == b@[off as int + 1] && s[2] == b@[off as int + 2]
            && s[3] == b@[off as int + 3]);
    }
    r
}

/// Read the big-endian 64-bit field at `off`.
pub fn read_u64_be(b: &[u8], off: usize) -> (r: u64)
    requires
        off + 8 <= b@.len(),
    ensures
        r == be64_val(b@.subrange(off as int, off + 8)),
{
    let r = (b[off] as u64) << 56 | (b[off + 1] as u64) << 48 | (b[off + 2] as u64) << 40 | (b[off
        + 3] as u64) << 32 | (b[off + 4] as u64) << 24 | (b[off + 5] as u64) << 16 | (b[off
        + 6] as u64) << 8 | (b[off + 7] as u64);
    proof {
        let s = b@.subrange(off as int, off + 8);
        assert(forall|i: int| 0 <= i < 8 ==> s[i] == b@[off + i]);
    }
    r
}

} // verus!
