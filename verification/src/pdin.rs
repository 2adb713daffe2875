//! Progressive Download Information Box (`pdin`).

use vstd::prelude::*;
use crate::box_reader::BoxReader;
use crate::box_types::{BoxInfo, BoxValue, Flags, flags_value};
use crate::bytes::be32;
use crate::error::{BoxParsingError, ErrKind, decoder_err, err_matches};

verus! {

pub struct Pdin {
    pub version: u8,
    pub flags: Flags,
    pub rate: u32,
    pub delay: u32,
}

/// Where decoding a `pdin` payload that starts at `p` leaves the cursor.
/// Only version `0` is accepted, and the check runs before the flags are
/// read.
pub open spec fn pdin_end(s: Seq<u8>, p: int) -> Result<int, ErrKind> {
    if p + 1 > s.len() {
        Err(ErrKind::EndOfStream)
    } else if s[p] != 0 {
        Err(ErrKind::BadVersion { expected: seq![0u8], actual: s[p] })
    } else if p + 12 > s.len() {
        Err(ErrKind::EndOfStream)
    } else {
        Ok(p + 12)
    }
}

/// The fields of `b` are exactly those encoded at `p`.
pub open spec fn pdin_ok(b: Pdin, s: Seq<u8>, p: int) -> bool {
    &&& b.version == s[p]
    &&& b.flags.0 == flags_value(s[p + 1], s[p + 2], s[p + 3])
    &&& b.rate as int == be32(s, p + 4)
    &&& b.delay as int == be32(s, p + 8)
}

impl Pdin {
    pub fn parse(reader: &mut BoxReader, _content_size: Option<u64>, info: &BoxInfo) -> (r: Result<
        Pdin,
        BoxParsingError,
    >)
        ensures
            final(reader).bytes() == old(reader).bytes(),
            r is Ok <==> pdin_end(old(reader).bytes(), old(reader).posn()) is Ok,
            match r {
                Ok(b) => {
                    &&& pdin_ok(b, old(reader).bytes(), old(reader).posn())
                    &&& pdin_end(old(reader).bytes(), old(reader).posn()) matches Ok(end)
                        && final(reader).posn() == end
                },
                Err(e) => {
                    &&& pdin_end(old(reader).bytes(), old(reader).posn()) matches Err(k)
                        && err_matches(e, k)
                    &&& decoder_err(e, *info)
                },
            },
    {
        let version = match reader.read_u8() {
            Ok(v) => v,
            Err(e) => {
                return Err(e);
            },
        };
        if version != 0 {
            let mut expected: Vec<u8> = Vec::new();
            expected.push(0);
            proof {
                assert(expected@ =~= seq![0u8]);
            }
            return Err(
                BoxParsingError::InvalidVersion { info: info.clone(), expected, actual: version },
            );
        }
        let flags = match Flags::read(reader) {
            Ok(f) => f,
            Err(e) => {
                return Err(e);
            },
        };
        let rate = match reader.read_u32() {
            Ok(v) => v,
            Err(e) => {
                return Err(e);
            },
        };
        let delay = match reader.read_u32() {
            Ok(v) => v,
            Err(e) => {
                return Err(e);
            },
        };
        Ok(Pdin { version, flags, rate, delay })
    }

    pub fn get_short_name() -> (r: &'static str)
        ensures
            r@ == "pdin"@,
    {
        "pdin"
    }

    pub fn get_long_name() -> (r: &'static str)
        ensures
            r@ == "Progressive Download Information Box"@,
    {
        "Progressive Download Information Box"
    }

    /// The named field values of this box, in declaration order.
    pub fn get_inner_values(&self) -> (r: Vec<(&'static str, BoxValue)>)
        ensures
            r@.len() == 4,
            r@[0].0@ == "version"@ && r@[0].1 == BoxValue::UInt8(self.version),
            r@[1].0@ == "flags"@ && r@[1].1 == BoxValue::Flags(self.flags),
            r@[2].0@ == "rate"@ && r@[2].1 == BoxValue::UInt32(self.rate),
            r@[3].0@ == "delay"@ && r@[3].1 == BoxValue::UInt32(self.delay),
    {
        let mut values: Vec<(&'static str, BoxValue)> = Vec::new();
        values.push(("version", BoxValue::UInt8(self.version)));
        values.push(("flags", BoxValue::Flags(self.flags)));
        values.push(("rate", BoxValue::UInt32(self.rate)));
        values.push(("delay", BoxValue::UInt32(self.delay)));
        values
    }

    /// `pdin` contains fields, never further boxes.
    pub fn get_contained_boxes(&self) -> (r: Option<&Vec<crate::box_types::IsoBoxData>>)
        ensures
            r is None,
    {
        None
    }
}

} // verus!
