//! Handler Reference Box (`hdlr`).

use vstd::prelude::*;
use vstd::utf8::{valid_utf8, decode_utf8};
use crate::box_reader::BoxReader;
use crate::box_types::{BoxInfo, BoxValue, Flags, flags_value};
use crate::bytes::be32;
use crate::error::{BoxParsingError, ErrKind, decoder_err, err_matches};

verus! {

broadcast use vstd::array::group_array_axioms;

pub struct Hdlr {
    pub version: u8,
    pub flags: Flags,
    pub pre_defined: u32,
    pub handler_type: u32,
    pub reserved: [u8; 3],
    pub name: String,
}

/// Where the handler name read from `p` with `content` budget bytes ends:
/// the name fills the content after the 15 fixed bytes (`None`: it runs to
/// the end of the stream).
pub open spec fn hdlr_name_end(s: Seq<u8>, p: int, content: Option<int>) -> int {
    match content {
        Some(c) => p + 15 + if c >= 15 {
            c - 15
        } else {
            0
        },
        None => s.len() as int,
    }
}

/// Where decoding an `hdlr` payload that starts at `p` with `content`
/// budget bytes leaves the cursor. Only version `0` is accepted, checked
/// before the flags are read.
pub open spec fn hdlr_end(s: Seq<u8>, p: int, content: Option<int>) -> Result<int, ErrKind> {
    if p + 1 > s.len() {
        Err(ErrKind::EndOfStream)
    } else if s[p] != 0 {
        Err(ErrKind::BadVersion { expected: seq![0u8], actual: s[p] })
    } else if p + 15 > s.len() {
        Err(ErrKind::EndOfStream)
    } else if hdlr_name_end(s, p, content) > s.len() {
        Err(ErrKind::EndOfStream)
    } else if !valid_utf8(s.subrange(p + 15, hdlr_name_end(s, p, content))) {
        Err(ErrKind::InvalidText)
    } else {
        Ok(hdlr_name_end(s, p, content))
    }
}

/// The fields of `h` are exactly those encoded at `p`, the name covering
/// the content after the fixed fields.
pub open spec fn hdlr_ok(h: Hdlr, s: Seq<u8>, p: int, content: Option<int>) -> bool {
    &&& h.version == s[p]
    &&& h.flags.0 == flags_value(s[p + 1], s[p + 2], s[p + 3])
    &&& h.pre_defined as int == be32(s, p + 4)
    &&& h.handler_type as int == be32(s, p + 8)
    &&& h.reserved@.len() == 3
    &&& h.reserved@[0] == s[p + 12] && h.reserved@[1] == s[p + 13] && h.reserved@[2] == s[p + 14]
    &&& h.name@ == decode_utf8(s.subrange(p + 15, hdlr_name_end(s, p, content)))
}

impl Hdlr {
    pub fn parse(reader: &mut BoxReader, content_size: Option<u64>, info: &BoxInfo) -> (r: Result<
        Hdlr,
        BoxParsingError,
    >)
        ensures
            final(reader).bytes() == old(reader).bytes(),
            r is Ok <==> hdlr_end(
                old(reader).bytes(),
                old(reader).posn(),
                crate::engine::opt_int(content_size),
            ) is Ok,
            match r {
                Ok(h) => {
                    &&& hdlr_ok(
                        h,
                        old(reader).bytes(),
                        old(reader).posn(),
                        crate::engine::opt_int(content_size),
                    )
                    &&& hdlr_end(
                        old(reader).bytes(),
                        old(reader).posn(),
                        crate::engine::opt_int(content_size),
                    ) matches Ok(end) && final(reader).posn() == end
                },
                Err(e) => {
                    &&& hdlr_end(
                        old(reader).bytes(),
                        old(reader).posn(),
                        crate::engine::opt_int(content_size),
                    ) matches Err(k) && err_matches(e, k)
                    &&& decoder_err(e, *info)
                },
            },
    {
        let version = match reader.read_u8() {
            Ok(v) => v,
            Err(e) => {
                return Err(e);
            },
        };
        if version != 0 {
            let mut expected: Vec<u8> = Vec::new();
            expected.push(0);
            proof {
                assert(expected@ =~= seq![0u8]);
            }
            return Err(
                BoxParsingError::InvalidVersion { info: info.clone(), expected, actual: version },
            );
        }
        let flags = match Flags::read(reader) {
            Ok(f) => f,
            Err(e) => {
                return Err(e);
            },
        };
        let pre_defined = match reader.read_u32() {
            Ok(v) => v,
            Err(e) => {
                return Err(e);
            },
        };
        let handler_type = match reader.read_u32() {
            Ok(v) => v,
            Err(e) => {
                return Err(e);
            },
        };
        let r0 = match reader.read_u8() {
            Ok(v) => v,
            Err(e) => {
                return Err(e);
            },
        };
        let r1 = match reader.read_u8() {
            Ok(v) => v,
            Err(e) => {
                return Err(e);
            },
        };
        let r2 = match reader.read_u8() {
            Ok(v) => v,
            Err(e) => {
                return Err(e);
            },
        };
        let reserved = [r0, r1, r2];
        let name_bytes = match content_size {
            Some(c) => {
                let name_len: u64 = if c >= 15 {
                    c - 15
                } else {
                    0
                };
                if name_len > reader.remaining() as u64 {
                    return Err(BoxParsingError::IOError { pos: reader.get_pos() });
                }
                match reader.read_bytes(name_len as usize) {
                    Ok(v) => v,
                    Err(e) => {
                        proof {
                            assert(false);
                        }
                        return Err(e);
                    },
                }
            },
            None => reader.read_to_end(),
        };
        let name = match crate::text::bytes_to_utf8(name_bytes) {
            Some(s) => s,
            None => {
                return Err(BoxParsingError::UTF8Error { pos: reader.get_pos() });
            },
        };
        Ok(Hdlr { version, flags, pre_defined, handler_type, reserved, name })
    }

    pub fn get_short_name() -> (r: &'static str)
        ensures
            r@ == "hdlr"@,
    {
        "hdlr"
    }

    pub fn get_long_name() -> (r: &'static str)
        ensures
            r@ == "Handler Reference Box"@,
    {
        "Handler Reference Box"
    }

    /// The named field values of this box, in declaration order.
    pub fn get_inner_values(&self) -> (r: Vec<(&'static str, BoxValue)>)
        ensures
            r@.len() == 6,
            r@[0].0@ == "version"@ && r@[0].1 == BoxValue::UInt8(self.version),
            r@[1].0@ == "flags"@ && r@[1].1 == BoxValue::Flags(self.flags),
            r@[2].0@ == "pre_defined"@ && r@[2].1 == BoxValue::UInt32(self.pre_defined),
            r@[3].0@ == "handler_type"@ && r@[3].1 == BoxValue::UInt32(self.handler_type),
            r@[4].0@ == "reserved"@,
            r@[4].1 matches BoxValue::UInt8Arr(a) && a@ == self.reserved@,
            r@[5].0@ == "name"@,
            r@[5].1 matches BoxValue::Utf8(s) && s@ == self.name@,
    {
        let mut values: Vec<(&'static str, BoxValue)> = Vec::new();
        values.push(("version", BoxValue::UInt8(self.version)));
        values.push(("flags", BoxValue::Flags(self.flags)));
        values.push(("pre_defined", BoxValue::UInt32(self.pre_defined)));
        values.push(("handler_type", BoxValue::UInt32(self.handler_type)));
        let mut reserved: Vec<u8> = Vec::new();
        reserved.push(self.reserved[0]);
        reserved.push(self.reserved[1]);
        reserved.push(self.reserved[2]);
        proof {
            assert(reserved@ =~= self.reserved@);
        }
        values.push(("reserved", BoxValue::UInt8Arr(reserved)));
        values.push(("name", BoxValue::Utf8(self.name.clone())));
        values
    }

    /// `hdlr` contains fields, never further boxes.
    pub fn get_contained_boxes(&self) -> (r: Option<&Vec<crate::box_types::IsoBoxData>>)
        ensures
            r is None,
    {
        None
    }
}

} // verus!
