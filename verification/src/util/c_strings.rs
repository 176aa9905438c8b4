//! Reading C-style NUL-terminated strings out of received buffers.

use crate::util::io::ByteReader;
use crate::util::serial::string_from_utf8;
use vstd::prelude::*;
use vstd::utf8::decode_utf8;
use vstd::utf8::valid_utf8;

verus! {

/// No NUL byte among the first `n` bytes of `b`.
pub open spec fn no_nul_in(b: Seq<u8>, n: int) -> bool {
    forall|j: int| 0 <= j < n ==> b[j] != 0
}

/// Error reading a NUL-terminated string of unknown length.
#[derive(Debug)]
pub enum ReadCStringError {
    /// An I/O error from the underlying stream.
    Io {
        /// The underlying error.
        source: std::io::Error,
    },
    /// The string contained invalid UTF-8.
    FromUtf8 {
        /// The underlying error.
        source: std::string::FromUtf8Error,
    },
    /// The data ended before the terminator.
    Disconnected,
}

/// Error reading a NUL-terminated string of known length.
#[derive(Debug)]
pub enum ReadCStringWithLenError {
    /// An I/O error from the underlying stream.
    Io {
        /// The underlying error.
        source: std::io::Error,
    },
    /// The string contained invalid UTF-8.
    FromUtf8 {
        /// The underlying error.
        source: std::string::FromUtf8Error,
    },
    /// The data ended before the string and its terminator.
    Disconnected,
    /// The string contained an interior NUL byte.
    InteriorNul {
        /// Position of the offending byte.
        pos: usize,
    },
    /// The byte after the string was not the NUL terminator.
    NoTerminator,
}

/// Reading NUL-terminated strings off the front of a reader.
pub trait ReadCString {
    /// The bytes not yet consumed.
    spec fn spec_input(&self) -> Seq<u8>;

    /// Read bytes up to and including the first NUL, and view them as
    /// text.  `Disconnected` where the data ends first; `FromUtf8` where
    /// the bytes before the NUL are not valid UTF-8.
    fn read_c_string(&mut self) -> (r: Result<String, ReadCStringError>)
        ensures
            match r {
                Ok(s) => {
                    let pre = old(self).spec_input();
                    let i = pre.len() - final(self).spec_input().len() - 1;
                    &&& 0 <= i < pre.len()
                    &&& pre[i] == 0
                    &&& no_nul_in(pre, i)
                    &&& valid_utf8(pre.subrange(0, i))
                    &&& s@ == decode_utf8(pre.subrange(0, i))
                    &&& final(self).spec_input() == pre.subrange(i + 1, pre.len() as int)
                },
                Err(ReadCStringError::FromUtf8 { .. }) => {
                    let pre = old(self).spec_input();
                    let i = pre.len() - final(self).spec_input().len() - 1;
                    &&& 0 <= i < pre.len()
                    &&& pre[i] == 0
                    &&& no_nul_in(pre, i)
                    &&& !valid_utf8(pre.subrange(0, i))
                    &&& final(self).spec_input() == pre.subrange(i + 1, pre.len() as int)
                },
                Err(ReadCStringError::Disconnected) => no_nul_in(
                    old(self).spec_input(),
                    old(self).spec_input().len() as int,
                ) && final(self).spec_input().len() == 0,
                Err(ReadCStringError::Io { .. }) => false,
            },
    ;

    /// Read exactly `len` non-NUL bytes, then the NUL terminator, and
    /// view the bytes as text.
    fn read_c_string_with_len(&mut self, len: usize) -> (r: Result<
        String,
        ReadCStringWithLenError,
    >)
        ensures
            ({
                let pre = old(self).spec_input();
                match r {
                    Ok(s) => {
                        &&& pre.len() >= len + 1
                        &&& no_nul_in(pre, len as int)
                        &&& pre[len as int] == 0
                        &&& valid_utf8(pre.subrange(0, len as int))
                        &&& s@ == decode_utf8(pre.subrange(0, len as int))
                        &&& final(self).spec_input() == pre.subrange(len + 1, pre.len() as int)
                    },
                    Err(ReadCStringWithLenError::InteriorNul { pos }) => {
                        &&& pos < len
                        &&& pos < pre.len()
                        &&& pre[pos as int] == 0
                        &&& no_nul_in(pre, pos as int)
                        &&& final(self).spec_input() == pre.subrange(pos + 1, pre.len() as int)
                    },
                    Err(ReadCStringWithLenError::Disconnected) => pre.len() < len + 1
                        && no_nul_in(pre, pre.len() as int) && final(self).spec_input().len() == 0,
                    Err(ReadCStringWithLenError::NoTerminator) => {
                        &&& pre.len() >= len + 1
                        &&& no_nul_in(pre, len as int)
                        &&& pre[len as int] != 0
                        &&& final(self).spec_input() == pre.subrange(len + 1, pre.len() as int)
                    },
                    Err(ReadCStringWithLenError::FromUtf8 { .. }) => {
                        &&& pre.len() >= len + 1
                        &&& no_nul_in(pre, len as int)
                        &&& pre[len as int] == 0
                        &&& !valid_utf8(pre.subrange(0, len as int))
                        &&& final(self).spec_input() == pre.subrange(len + 1, pre.len() as int)
                    },
                    Err(ReadCStringWithLenError::Io { .. }) => false,
                }
            }),
    ;
}

impl<'a> ReadCString for ByteReader<'a> {
    open spec fn spec_input(&self) -> Seq<u8> {
        self.spec_remaining()
    }

    fn read_c_string(&mut self) -> (r: Result<String, ReadCStringError>) {
        let ghost pre = self.spec_remaining();
        let mut v: Vec<u8> = Vec::new();
        loop
            invariant
                pre == old(self).spec_remaining(),
                v@.len() <= pre.len(),
                v@ == pre.subrange(0, v@.len() as int),
                no_nul_in(pre, v@.len() as int),
                self.spec_remaining() == pre.subrange(v@.len() as int, pre.len() as int),
            decreases pre.len() - v@.len(),
        {
            let ghost i = v@.len() as int;
            match self.read_u8() {
                None => {
                    return Err(ReadCStringError::Disconnected);
                },
                Some(b) => {
                    proof {
                        assert(pre[i] == pre.subrange(i, pre.len() as int)[0]);
                    }
                    if b == 0u8 {
                        proof {
                            assert(self.spec_remaining() =~= pre.subrange(i + 1, pre.len() as int));
                        }
                        return match string_from_utf8(v) {
                            Ok(s) => Ok(s),
                            Err(source) => Err(ReadCStringError::FromUtf8 { source }),
                        };
                    }
                    v.push(b);
                    proof {
                        assert(v@ =~= pre.subrange(0, i + 1));
                        assert(self.spec_remaining() =~= pre.subrange(i + 1, pre.len() as int));
                    }
                },
            }
        }
    }

    fn read_c_string_with_len(&mut self, len: usize) -> (r: Result<
        String,
        ReadCStringWithLenError,
    >) {
        let ghost pre = self.spec_remaining();
        let mut v: Vec<u8> = Vec::new();
        let mut i: usize = 0;
        while i < len
            invariant
                pre == old(self).spec_remaining(),
                i <= len,
                i <= pre.len(),
                v@.len() == i,
                v@ == pre.subrange(0, i as int),
                no_nul_in(pre, i as int),
                self.spec_remaining() == pre.subrange(i as int, pre.len() as int),
            decreases len - i,
        {
            match self.read_u8() {
                None => {
                    proof {
                        assert(pre.subrange(i as int, pre.len() as int).len() == 0);
                    }
                    return Err(ReadCStringWithLenError::Disconnected);
                },
                Some(b) => {
                    proof {
                        assert(pre[i as int] == pre.subrange(i as int, pre.len() as int)[0]);
                    }
                    if b == 0u8 {
                        proof {
                            assert(self.spec_remaining() =~= pre.subrange(
                                i + 1,
                                pre.len() as int,
                            ));
                        }
                        return Err(ReadCStringWithLenError::InteriorNul { pos: i });
                    }
                    v.push(b);
                    proof {
                        assert(v@ =~= pre.subrange(0, i + 1));
                        assert(self.spec_remaining() =~= pre.subrange(i + 1, pre.len() as int));
                    }
                },
            }
            i += 1;
        }
        match self.read_u8() {
            None => {
                proof {
                    assert(pre.subrange(len as int, pre.len() as int).len() == 0);
                }
                Err(ReadCStringWithLenError::Disconnected)
            },
            Some(b) => {
                proof {
                    assert(pre[len as int] == pre.subrange(len as int, pre.len() as int)[0]);
                    assert(self.spec_remaining() =~= pre.subrange(len + 1, pre.len() as int));
                }
                if b != 0u8 {
                    Err(ReadCStringWithLenError::NoTerminator)
                } else {
                    match string_from_utf8(v) {
                        Ok(s) => Ok(s),
                        Err(source) => Err(ReadCStringWithLenError::FromUtf8 { source }),
                    }
                }
            },
        }
    }
}

} // verus!
