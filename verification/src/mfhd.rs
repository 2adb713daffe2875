//! Movie Fragment Header Box (`mfhd`).

use vstd::prelude::*;
use crate::box_reader::BoxReader;
use crate::box_types::{BoxInfo, BoxValue, Flags, flags_value};
use crate::bytes::be32;
use crate::error::{BoxParsingError, ErrKind, decoder_err, err_matches};

verus! {

pub struct Mfhd {
    pub version: u8,
    pub flags: Flags,
    pub sequence_number: u32,
}

/// Where decoding an `mfhd` payload that starts at `p` leaves the cursor.
pub open spec fn mfhd_end(s: Seq<u8>, p: int) -> Result<int, ErrKind> {
    if p + 8 <= s.len() {
        Ok(p + 8)
    } else {
        Err(ErrKind::EndOfStream)
    }
}

/// The fields of `m` are exactly those encoded at `p`.
pub open spec fn mfhd_ok(m: Mfhd, s: Seq<u8>, p: int) -> bool {
    &&& m.version == s[p]
    &&& m.flags.0 == flags_value(s[p + 1], s[p + 2], s[p + 3])
    &&& m.sequence_number as int == be32(s, p + 4)
}

impl Mfhd {
    pub fn parse(reader: &mut BoxReader, _content_size: Option<u64>, info: &BoxInfo) -> (r:
        Result<Mfhd, BoxParsingError>)
        ensures
            final(reader).bytes() == old(reader).bytes(),
            r is Ok <==> mfhd_end(old(reader).bytes(), old(reader).posn()) is Ok,
            match r {
                Ok(m) => {
                    &&& mfhd_ok(m, old(reader).bytes(), old(reader).posn())
                    &&& mfhd_end(old(reader).bytes(), old(reader).posn()) matches Ok(end)
                        && final(reader).posn() == end
                },
                Err(e) => {
                    &&& mfhd_end(old(reader).bytes(), old(reader).posn()) matches Err(k)
                        && err_matches(e, k)
                    &&& decoder_err(e, *info)
                },
            },
    {
        let version = match reader.read_u8() {
            Ok(v) => v,
            Err(e) => {
                return Err(e);
            },
        };
        let flags = match Flags::read(reader) {
            Ok(f) => f,
            Err(e) => {
                return Err(e);
            },
        };
        let sequence_number = match reader.read_u32() {
            Ok(v) => v,
            Err(e) => {
                return Err(e);
            },
        };
        Ok(Mfhd { version, flags, sequence_number })
    }

    pub fn get_short_name() -> (r: &'static str)
        ensures
            r@ == "mfhd"@,
    {
        "mfhd"
    }

    pub fn get_long_name() -> (r: &'static str)
        ensures
            r@ == "Movie Fragment Header Box"@,
    {
        "Movie Fragment Header Box"
    }

    /// The named field values of this box, in declaration order.
    pub fn get_inner_values(&self) -> (r: Vec<(&'static str, BoxValue)>)
        ensures
            r@.len() == 3,
            r@[0].0@ == "version"@ && r@[0].1 == BoxValue::UInt8(self.version),
            r@[1].0@ == "flags"@ && r@[1].1 == BoxValue::Flags(self.flags),
            r@[2].0@ == "sequence_number"@ && r@[2].1 == BoxValue::UInt32(self.sequence_number),
    {
        let mut values: Vec<(&'static str, BoxValue)> = Vec::new();
        values.push(("version", BoxValue::UInt8(self.version)));
        values.push(("flags", BoxValue::Flags(self.flags)));
        values.push(("sequence_number", BoxValue::UInt32(self.sequence_number)));
        values
    }

    /// `mfhd` contains fields, never further boxes.
    pub fn get_contained_boxes(&self) -> (r: Option<&Vec<crate::box_types::IsoBoxData>>)
        ensures
            r is None,
    {
        None
    }
}

} // verus!
