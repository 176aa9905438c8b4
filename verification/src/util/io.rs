//! A bounds-checked reader over a received buffer, and the reading trait
//! built on it.

use crate::util::serial::be32_val;
use crate::util::serial::be64_val;
use vstd::prelude::*;
use vstd::slice::slice_subrange;
use vstd::slice::slice_to_vec;

verus! {

#[verifier::external_type_specification]
#[verifier::external_body]
/// `std::io::Error`, carried opaquely inside error values.
pub struct ExIoError(std::io::Error);

/// A reader over a borrowed buffer: hands out the front, never reads past
/// the end.
#[derive(Copy, Clone)]
pub struct ByteReader<'a> {
    buf: &'a [u8],
}

impl<'a> ByteReader<'a> {
    /// The bytes not yet consumed.
    pub closed spec fn spec_remaining(self) -> Seq<u8> {
        self.buf@
    }

    /// A reader over the whole buffer.
    pub fn new(buf: &'a [u8]) -> (r: Self)
        ensures
            r.spec_remaining() == buf@,
    {
        ByteReader { buf }
    }

    /// How many bytes are left.
    pub fn remaining(&self) -> (r: usize)
        ensures
            r == self.spec_remaining().len(),
    {
        self.buf.len()
    }

    /// Read one byte, or `None` at the end.
    pub fn read_u8(&mut self) -> (r: Option<u8>)
        ensures
            match r {
                Some(v) => old(self).spec_remaining().len() > 0 && v == old(
                    self,
                ).spec_remaining()[0] && final(self).spec_remaining() == old(
                    self,
                ).spec_remaining().drop_first(),
                None => old(self).spec_remaining().len() == 0 && final(self).spec_remaining()
                    == old(self).spec_remaining(),
            },
    {
        if self.buf.len() > 0 {
            let v = self.buf[0];
            self.buf = slice_subrange(self.buf, 1, self.buf.len());
            proof {
                assert(self.buf@ =~= old(self).spec_remaining().drop_first());
            }
            Some(v)
        } else {
            None
        }
    }

    /// Read a big-endian 32-bit field, or `None` with nothing consumed
    /// where fewer than four bytes are left.
    pub fn read_u32_be(&mut self) -> (r: Option<u32>)
        ensures
            match r {
                Some(v) => old(self).spec_remaining().len() >= 4 && v == be32_val(
                    old(self).spec_remaining().subrange(0, 4),
                ) && final(self).spec_remaining() == old(self).spec_remaining().subrange(
                    4,
                    old(self).spec_remaining().len() as int,
                ),
                None => old(self).spec_remaining().len() < 4 && final(self).spec_remaining()
                    == old(self).spec_remaining(),
            },
    {
        if self.buf.len() >= 4 {
            let v = crate::util::serial::read_u32_be(self.buf, 0);
            self.buf = slice_subrange(self.buf, 4, self.buf.len());
            Some(v)
        } else {
            None
        }
    }

    /// Read a big-endian 64-bit field, or `None` with nothing consumed
    /// where fewer than eight bytes are left.
    pub fn read_u64_be(&mut self) -> (r: Option<u64>)
        ensures
            match r {
                Some(v) => old(self).spec_remaining().len() >= 8 && v == be64_val(
                    old(self).spec_remaining().subrange(0, 8),
                ) && final(self).spec_remaining() == old(self).spec_remaining().subrange(
                    8,
                    old(self).spec_remaining().len() as int,
                ),
                None => old(self).spec_remaining().len() < 8 && final(self).spec_remaining()
                    == old(self).spec_remaining(),
            },
    {
        if self.buf.len() >= 8 {
            let v = crate::util::serial::read_u64_be(self.buf, 0);
            self.buf = slice_subrange(self.buf, 8, self.buf.len());
            Some(v)
        } else {
            None
        }
    }
}

/// Allocate-and-read: `len` bytes taken off the front of the reader.
pub trait ReadUtil {
    /// The bytes not yet consumed.
    spec fn spec_rest(&self) -> Seq<u8>;

    /// Read exactly `len` bytes into a fresh buffer, or `None` with
    /// nothing consumed where fewer are left.
    fn read_exact_alloc(&mut self, len: usize) -> (r: Option<Vec<u8>>)
        ensures
            match r {
                Some(v) => old(self).spec_rest().len() >= len && v@ == old(
                    self,
                ).spec_rest().subrange(0, len as int) && final(self).spec_rest() == old(
                    self,
                ).spec_rest().subrange(len as int, old(self).spec_rest().len() as int),
                None => old(self).spec_rest().len() < len && final(self).spec_rest() == old(
                    self,
                ).spec_rest(),
            },
    ;
}

impl<'a> ReadUtil for ByteReader<'a> {
    open spec fn spec_rest(&self) -> Seq<u8> {
        self.spec_remaining()
    }

    fn read_exact_alloc(&mut self, len: usize) -> (r: Option<Vec<u8>>) {
        if self.buf.len() >= len {
            let v = slice_to_vec(slice_subrange(self.buf, 0, len));
            self.buf = slice_subrange(self.buf, len, self.buf.len());
            Some(v)
        } else {
            None
        }
    }
}

} // verus!
