//! Track Fragment Decode Time Box (`tfdt`).

use vstd::prelude::*;
use crate::box_reader::BoxReader;
use crate::box_types::{BoxInfo, BoxValue, Flags, flags_value};
use crate::bytes::{be32, be64};
use crate::error::{BoxParsingError, ErrKind, decoder_err, err_matches};

verus! {

pub struct Tfdt {
    pub version: u8,
    pub flags: Flags,
    pub base_media_decode_time: u64,
}

/// Where decoding a `tfdt` payload that starts at `p` leaves the cursor:
/// version and flags, then a time field whose width the version selects.
pub open spec fn tfdt_end(s: Seq<u8>, p: int) -> Result<int, ErrKind> {
    if p + 4 > s.len() {
        Err(ErrKind::EndOfStream)
    } else {
        let w: int = if s[p] == 1 {
            8
        } else {
            4
        };
        if p + 4 + w > s.len() {
            Err(ErrKind::EndOfStream)
        } else {
            Ok(p + 4 + w)
        }
    }
}

/// The fields of `t` are exactly those encoded at `p`.
pub open spec fn tfdt_ok(t: Tfdt, s: Seq<u8>, p: int) -> bool {
    &&& t.version == s[p]
    &&& t.flags.0 == flags_value(s[p + 1], s[p + 2], s[p + 3])
    &&& t.base_media_decode_time as int == if s[p] == 1 {
        be64(s, p + 4)
    } else {
        be32(s, p + 4)
    }
}

impl Tfdt {
    pub fn parse(reader: &mut BoxReader, _content_size: Option<u64>, info: &BoxInfo) -> (r:
        Result<Tfdt, BoxParsingError>)
        ensures
            final(reader).bytes() == old(reader).bytes(),
            r is Ok <==> tfdt_end(old(reader).bytes(), old(reader).posn()) is Ok,
            match r {
                Ok(t) => {
                    &&& tfdt_ok(t, old(reader).bytes(), old(reader).posn())
                    &&& tfdt_end(old(reader).bytes(), old(reader).posn()) matches Ok(end)
                        && final(reader).posn() == end
                },
                Err(e) => {
                    &&& tfdt_end(old(reader).bytes(), old(reader).posn()) matches Err(k)
                        && err_matches(e, k)
                    &&& decoder_err(e, *info)
                },
            },
    {
        let version = match reader.read_u8() {
            Ok(v) => v,
            Err(e) => {
                return Err(e);
            },
        };
        let flags = match Flags::read(reader) {
            Ok(f) => f,
            Err(e) => {
                return Err(e);
            },
        };
        let base_media_decode_time = if version == 1 {
            match reader.read_u64() {
                Ok(v) => v,
                Err(e) => {
                    return Err(e);
                },
            }
        } else {
            match reader.read_u32() {
                Ok(v) => v as u64,
                Err(e) => {
                    return Err(e);
                },
            }
        };
        Ok(Tfdt { version, flags, base_media_decode_time })
    }

    pub fn get_short_name() -> (r: &'static str)
        ensures
            r@ == "tfdt"@,
    {
        "tfdt"
    }

    pub fn get_long_name() -> (r: &'static str)
        ensures
            r@ == "Track Fragment Decode Time Box"@,
    {
        "Track Fragment Decode Time Box"
    }

    /// The named field values of this box, in declaration order.
    pub fn get_inner_values(&self) -> (r: Vec<(&'static str, BoxValue)>)
        ensures
            r@.len() == 3,
            r@[0].0@ == "version"@ && r@[0].1 == BoxValue::UInt8(self.version),
            r@[1].0@ == "flags"@ && r@[1].1 == BoxValue::Flags(self.flags),
            r@[2].0@ == "base_media_decode_time"@ && r@[2].1 == BoxValue::UInt64(
                self.base_media_decode_time,
            ),
    {
        let mut values: Vec<(&'static str, BoxValue)> = Vec::new();
        values.push(("version", BoxValue::UInt8(self.version)));
        values.push(("flags", BoxValue::Flags(self.flags)));
        values.push(("base_media_decode_time", BoxValue::UInt64(self.base_media_decode_time)));
        values
    }

    /// `tfdt` contains fields, never further boxes.
    pub fn get_contained_boxes(&self) -> (r: Option<&Vec<crate::box_types::IsoBoxData>>)
        ensures
            r is None,
    {
        None
    }
}

} // verus!
