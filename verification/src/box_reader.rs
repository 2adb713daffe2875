//! Sequential big-endian cursor over an in-memory byte stream.
//!
//! Every read advances an absolute position; a read or skip that would run
//! past the end of the stream fails without moving the position, so callers
//! can rely on exact-consumption accounting to detect truncated input.

use vstd::prelude::*;
use vstd::utf8::{valid_utf8, decode_utf8};
use crate::bytes::{be16, be32, be64, be_i32};
use crate::error::{BoxParsingError, ReadStrError};

verus! {

pub struct BoxReader {
    data: Vec<u8>,
    pos: usize,
}

impl BoxReader {
    /// The whole underlying stream.
    pub closed spec fn bytes(&self) -> Seq<u8> {
        self.data@
    }

    /// The current absolute position.
    pub closed spec fn posn(&self) -> int {
        self.pos as int
    }

    #[verifier::type_invariant]
    spec fn cursor_in_bounds(&self) -> bool {
        self.pos <= self.data@.len()
    }

    pub fn create(data: Vec<u8>) -> (r: BoxReader)
        ensures
            r.bytes() == data@,
            r.posn() == 0,
    {
        BoxReader { data, pos: 0 }
    }

    /// The number of bytes left before the end of the stream.
    pub fn remaining(&self) -> (r: usize)
        ensures
            r == self.bytes().len() - self.posn(),
    {
        proof {
            use_type_invariant(self);
        }
        self.data.len() - self.pos
    }

    /// The total length of the underlying stream.
    pub fn stream_len(&self) -> (r: usize)
        ensures
            r == self.bytes().len(),
            self.posn() <= self.bytes().len(),
    {
        proof {
            use_type_invariant(self);
        }
        self.data.len()
    }

    /// Whether the stream is exhausted.
    pub fn is_empty(&self) -> (r: bool)
        ensures
            r == (self.posn() == self.bytes().len()),
            self.posn() <= self.bytes().len(),
    {
        proof {
            use_type_invariant(self);
        }
        self.pos == self.data.len()
    }

    /// The current absolute position.
    pub fn get_pos(&self) -> (r: u64)
        ensures
            r == self.posn(),
            self.posn() <= self.bytes().len(),
    {
        proof {
            use_type_invariant(self);
        }
        self.pos as u64
    }

    /// Reads the next byte.
    pub fn read_u8(&mut self) -> (r: Result<u8, BoxParsingError>)
        ensures
            final(self).bytes() == old(self).bytes(),
            r is Ok <==> old(self).posn() + 1 <= old(self).bytes().len(),
            match r {
                Ok(v) => {
                    &&& final(self).posn() == old(self).posn() + 1
                    &&& v == old(self).bytes()[old(self).posn()]
                },
                Err(e) => {
                    &&& final(self).posn() == old(self).posn()
                    &&& e matches BoxParsingError::IOError { pos } && pos == old(self).posn()
                },
            },
    {
        proof {
            use_type_invariant(&*self);
        }
        if self.pos < self.data.len() {
            let v = self.data[self.pos];
            self.pos = self.pos + 1;
            Ok(v)
        } else {
            Err(BoxParsingError::IOError { pos: self.pos as u64 })
        }
    }

    /// Reads the next two bytes as a big-endian unsigned integer.
    pub fn read_u16(&mut self) -> (r: Result<u16, BoxParsingError>)
        ensures
            final(self).bytes() == old(self).bytes(),
            r is Ok <==> old(self).posn() + 2 <= old(self).bytes().len(),
            match r {
                Ok(v) => {
                    &&& final(self).posn() == old(self).posn() + 2
                    &&& v as int == be16(old(self).bytes(), old(self).posn())
                },
                Err(e) => {
                    &&& final(self).posn() == old(self).posn()
                    &&& e matches BoxParsingError::IOError { pos } && pos == old(self).posn()
                },
            },
    {
        proof {
            use_type_invariant(&*self);
        }
        if self.data.len() - self.pos >= 2 {
            let b0 = self.data[self.pos];
            let b1 = self.data[self.pos + 1];
            self.pos = self.pos + 2;
            Ok((b0 as u16) * 0x100 + (b1 as u16))
        } else {
            Err(BoxParsingError::IOError { pos: self.pos as u64 })
        }
    }

    /// Reads the next four bytes as a big-endian unsigned integer.
    pub fn read_u32(&mut self) -> (r: Result<u32, BoxParsingError>)
        ensures
            final(self).bytes() == old(self).bytes(),
            r is Ok <==> old(self).posn() + 4 <= old(self).bytes().len(),
            match r {
                Ok(v) => {
                    &&& final(self).posn() == old(self).posn() + 4
                    &&& v as int == be32(old(self).bytes(), old(self).posn())
                },
                Err(e) => {
                    &&& final(self).posn() == old(self).posn()
                    &&& e matches BoxParsingError::IOError { pos } && pos == old(self).posn()
                },
            },
    {
        proof {
            use_type_invariant(&*self);
        }
        if self.data.len() - self.pos >= 4 {
            let b0 = self.data[self.pos];
            let b1 = self.data[self.pos + 1];
            let b2 = self.data[self.pos + 2];
            let b3 = self.data[self.pos + 3];
            self.pos = self.pos + 4;
            Ok(
                (b0 as u32) * 0x100_0000 + (b1 as u32) * 0x1_0000 + (b2 as u32) * 0x100 + (
                b3 as u32),
            )
        } else {
            Err(BoxParsingError::IOError { pos: self.pos as u64 })
        }
    }

    /// Reads the next four bytes as a big-endian two's-complement integer.
    pub fn read_i32(&mut self) -> (r: Result<i32, BoxParsingError>)
        ensures
            final(self).bytes() == old(self).bytes(),
            r is Ok <==> old(self).posn() + 4 <= old(self).bytes().len(),
            match r {
                Ok(v) => {
                    &&& final(self).posn() == old(self).posn() + 4
                    &&& v as int == be_i32(old(self).bytes(), old(self).posn())
                },
                Err(e) => {
                    &&& final(self).posn() == old(self).posn()
                    &&& e matches BoxParsingError::IOError { pos } && pos == old(self).posn()
                },
            },
    {
        let w = match self.read_u32() {
            Ok(w) => w,
            Err(e) => {
                return Err(e);
            },
        };
        if w >= 0x8000_0000 {
            Ok(((w as i64) - 0x1_0000_0000) as i32)
        } else {
            Ok(w as i32)
        }
    }

    /// Reads the next eight bytes as a big-endian unsigned integer.
    pub fn read_u64(&mut self) -> (r: Result<u64, BoxParsingError>)
        ensures
            final(self).bytes() == old(self).bytes(),
            r is Ok <==> old(self).posn() + 8 <= old(self).bytes().len(),
            match r {
                Ok(v) => {
                    &&& final(self).posn() == old(self).posn() + 8
                    &&& v as int == be64(old(self).bytes(), old(self).posn())
                },
                Err(e) => {
                    &&& final(self).posn() == old(self).posn()
                    &&& e matches BoxParsingError::IOError { pos } && pos == old(self).posn()
                },
            },
    {
        proof {
            use_type_invariant(&*self);
        }
        if self.data.len() - self.pos >= 8 {
            let hi = match self.read_u32() {
                Ok(v) => v,
                Err(e) => {
                    proof {
                        assert(false);
                    }
                    return Err(e);
                },
            };
            let lo = match self.read_u32() {
                Ok(v) => v,
                Err(e) => {
                    proof {
                        assert(false);
                    }
                    return Err(e);
                },
            };
            Ok((hi as u64) * 0x1_0000_0000 + (lo as u64))
        } else {
            Err(BoxParsingError::IOError { pos: self.pos as u64 })
        }
    }

    /// Reads the next `nb_bytes` bytes into an owned vector.
    #[verifier::loop_isolation(false)]
    pub fn read_bytes(&mut self, nb_bytes: usize) -> (r: Result<Vec<u8>, BoxParsingError>)
        ensures
            final(self).bytes() == old(self).bytes(),
            r is Ok <==> old(self).posn() + nb_bytes <= old(self).bytes().len(),
            match r {
                Ok(v) => {
                    &&& final(self).posn() == old(self).posn() + nb_bytes
                    &&& v@ == old(self).bytes().subrange(
                        old(self).posn(),
                        old(self).posn() + nb_bytes,
                    )
                },
                Err(e) => {
                    &&& final(self).posn() == old(self).posn()
                    &&& e matches BoxParsingError::IOError { pos } && pos == old(self).posn()
                },
            },
    {
        proof {
            use_type_invariant(&*self);
        }
        if self.data.len() - self.pos >= nb_bytes {
            let mut v: Vec<u8> = Vec::new();
            let mut i: usize = 0;
            while i < nb_bytes
                invariant
                    i <= nb_bytes,
                    self.pos + nb_bytes <= self.data@.len(),
                    self.data@.len() <= usize::MAX,
                    v@ == self.data@.subrange(self.pos as int, self.pos + i),
                decreases nb_bytes - i,
            {
                v.push(self.data[self.pos + i]);
                i = i + 1;
                proof {
                    assert(v@ =~= self.data@.subrange(self.pos as int, self.pos + i));
                }
            }
            self.pos = self.pos + nb_bytes;
            Ok(v)
        } else {
            Err(BoxParsingError::IOError { pos: self.pos as u64 })
        }
    }

    /// Reads the next `nb_bytes` bytes as UTF-8 text.
    ///
    /// The position does not move when the read fails, whether for want of
    /// bytes or because the bytes are not valid UTF-8.
    pub fn read_str(&mut self, nb_bytes: usize) -> (r: Result<String, ReadStrError>)
        ensures
            final(self).bytes() == old(self).bytes(),
            r is Ok <==> old(self).posn() + nb_bytes <= old(self).bytes().len() && valid_utf8(
                old(self).bytes().subrange(old(self).posn(), old(self).posn() + nb_bytes),
            ),
            match r {
                Ok(s) => {
                    &&& final(self).posn() == old(self).posn() + nb_bytes
                    &&& s@ == decode_utf8(
                        old(self).bytes().subrange(
                            old(self).posn(),
                            old(self).posn() + nb_bytes,
                        ),
                    )
                },
                Err(e) => {
                    &&& final(self).posn() == old(self).posn()
                    &&& (e matches ReadStrError::IOError { pos } ==> {
                        &&& pos == old(self).posn()
                        &&& old(self).posn() + nb_bytes > old(self).bytes().len()
                    })
                    &&& (e matches ReadStrError::FromUTF8Error { pos } ==> {
                        &&& pos == old(self).posn()
                        &&& old(self).posn() + nb_bytes <= old(self).bytes().len()
                        &&& !valid_utf8(
                            old(self).bytes().subrange(
                                old(self).posn(),
                                old(self).posn() + nb_bytes,
                            ),
                        )
                    })
                },
            },
    {
        proof {
            use_type_invariant(&*self);
        }
        if self.data.len() - self.pos < nb_bytes {
            return Err(ReadStrError::IOError { pos: self.pos as u64 });
        }
        let start = self.pos;
        let buffer = match self.read_bytes(nb_bytes) {
            Ok(v) => v,
            Err(_) => {
                return Err(ReadStrError::IOError { pos: start as u64 });
            },
        };
        match crate::text::bytes_to_utf8(buffer) {
            Some(s) => Ok(s),
            None => {
                self.pos = start;
                Err(ReadStrError::FromUTF8Error { pos: start as u64 })
            },
        }
    }

    /// Reads all bytes from the current position to the end of the stream.
    pub fn read_to_end(&mut self) -> (r: Vec<u8>)
        ensures
            final(self).bytes() == old(self).bytes(),
            final(self).posn() == old(self).bytes().len(),
            r@ == old(self).bytes().subrange(old(self).posn(), old(self).bytes().len() as int),
    {
        proof {
            use_type_invariant(&*self);
        }
        let n = self.data.len() - self.pos;
        match self.read_bytes(n) {
            Ok(v) => v,
            Err(_) => {
                proof {
                    assert(false);
                }
                Vec::new()
            },
        }
    }

    /// Skips forward over the next `nb_bytes` bytes. Fails, without moving,
    /// if fewer than `nb_bytes` bytes remain.
    pub fn skip_bytes(&mut self, nb_bytes: u64) -> (r: Result<(), BoxParsingError>)
        ensures
            final(self).bytes() == old(self).bytes(),
            r is Ok <==> old(self).posn() + nb_bytes <= old(self).bytes().len(),
            match r {
                Ok(_) => final(self).posn() == old(self).posn() + nb_bytes,
                Err(e) => {
                    &&& final(self).posn() == old(self).posn()
                    &&& e matches BoxParsingError::IOError { pos } && pos == old(self).posn()
                },
            },
    {
        proof {
            use_type_invariant(&*self);
        }
        if nb_bytes <= (self.data.len() - self.pos) as u64 {
            self.pos = self.pos + nb_bytes as usize;
            Ok(())
        } else {
            Err(BoxParsingError::IOError { pos: self.pos as u64 })
        }
    }

    /// Skips to the end of the stream.
    pub fn skip_to_end(&mut self)
        ensures
            final(self).bytes() == old(self).bytes(),
            final(self).posn() == old(self).bytes().len(),
    {
        self.pos = self.data.len();
    }
}

} // verus!
