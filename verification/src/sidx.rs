//! Segment Index Box (`sidx`).
//!
//! Not in the decoder registry: the engine treats a `sidx` box as opaque,
//! but callers can decode one by hand with [`Sidx::parse`].

use vstd::prelude::*;
use crate::box_reader::BoxReader;
use crate::box_types::{BoxInfo, BoxValue, Flags, flags_value};
use crate::bytes::{be16, be32, be64};
use crate::error::{BoxParsingError, ErrKind, err_matches};

verus! {

pub struct SidxReference {
    pub reference_type: u8,
    pub referenced_size: u32,
    pub subsegment_duration: u32,
    pub starts_with_sap: bool,
    pub sap_type: u8,
    pub sap_delta_time: u32,
}

pub struct Sidx {
    pub version: u8,
    pub flags: Flags,
    pub reference_id: u32,
    pub timescale: u32,
    pub earliest_presentation_time: u64,
    pub first_offset: u64,
    pub reserved: u16,
    pub reference_count: u16,
    pub references: Vec<SidxReference>,
}

/// The reference record encoded at `p`: two bit-packed words around a
/// plain duration. The packed magnitudes are extracted by masking and
/// shifting, never by sign-extending arithmetic.
pub open spec fn sidx_ref_at(s: Seq<u8>, p: int) -> SidxReference {
    let w1 = be32(s, p) as u32;
    let w3 = be32(s, p + 8) as u32;
    SidxReference {
        reference_type: (w1 >> 31) as u8 & 0x01,
        referenced_size: w1 & 0x7FFF_FFFF,
        subsegment_duration: be32(s, p + 4) as u32,
        starts_with_sap: ((w3 >> 31) & 0x01) != 0,
        sap_type: ((w3 >> 28) & 0x07) as u8,
        sap_delta_time: w3 & 0x0FFF_FFFF,
    }
}

/// The `n` reference records read from `p`, 12 bytes each, and the
/// position after them.
pub open spec fn sidx_refs(s: Seq<u8>, p: int, n: int) -> Result<(Seq<SidxReference>, int), ErrKind>
    decreases n,
{
    if n <= 0 {
        Ok((seq![], p))
    } else if p + 12 > s.len() {
        Err(ErrKind::EndOfStream)
    } else {
        match sidx_refs(s, p + 12, n - 1) {
            Ok((tail, end)) => Ok((seq![sidx_ref_at(s, p)] + tail, end)),
            Err(k) => Err(k),
        }
    }
}

/// Start of the fixed tail that follows the version-gated time fields.
pub open spec fn sidx_tail(p: int, version: u8) -> int {
    p + 12 + if version == 0 {
        8int
    } else {
        16int
    }
}

/// The decoded parts of a `sidx` payload at `p`: version, flag word,
/// reference id, timescale, earliest presentation time, first offset,
/// reserved word, reference count, the references, and the position
/// after them.
pub open spec fn sidx_parsed(s: Seq<u8>, p: int) -> Result<
    ((u8, u32, u32, u32, u64, u64, u16, u16, Seq<SidxReference>), int),
    ErrKind,
> {
    if p + 4 > s.len() {
        Err(ErrKind::EndOfStream)
    } else {
        let version = s[p];
        let fl = flags_value(s[p + 1], s[p + 2], s[p + 3]);
        let q = sidx_tail(p, version);
        if q + 4 > s.len() {
            Err(ErrKind::EndOfStream)
        } else {
            let ept = if version == 0 {
                be32(s, p + 12)
            } else {
                be64(s, p + 12)
            };
            let fo = if version == 0 {
                be32(s, p + 16)
            } else {
                be64(s, p + 20)
            };
            let n = be16(s, q + 2);
            match sidx_refs(s, q + 4, n) {
                Ok((refs, end)) => Ok(
                    (
                        (
                            version,
                            fl,
                            be32(s, p + 4) as u32,
                            be32(s, p + 8) as u32,
                            ept as u64,
                            fo as u64,
                            be16(s, q) as u16,
                            n as u16,
                            refs,
                        ),
                        end,
                    ),
                ),
                Err(k) => Err(k),
            }
        }
    }
}

/// The fields of `b` are exactly the ghost parts `g`.
pub open spec fn sidx_matches(
    b: Sidx,
    g: (u8, u32, u32, u32, u64, u64, u16, u16, Seq<SidxReference>),
) -> bool {
    &&& b.version == g.0
    &&& b.flags.0 == g.1
    &&& b.reference_id == g.2
    &&& b.timescale == g.3
    &&& b.earliest_presentation_time == g.4
    &&& b.first_offset == g.5
    &&& b.reserved == g.6
    &&& b.reference_count == g.7
    &&& b.references@ == g.8
}

impl Sidx {
    #[verifier::loop_isolation(false)]
    pub fn parse(reader: &mut BoxReader, _content_size: Option<u64>, _info: &BoxInfo) -> (r:
        Result<Sidx, BoxParsingError>)
        ensures
            final(reader).bytes() == old(reader).bytes(),
            r is Ok <==> sidx_parsed(old(reader).bytes(), old(reader).posn()) is Ok,
            match r {
                Ok(b) => sidx_parsed(old(reader).bytes(), old(reader).posn()) matches Ok((g, end))
                    && sidx_matches(b, g) && final(reader).posn() == end,
                Err(e) => sidx_parsed(old(reader).bytes(), old(reader).posn()) matches Err(k)
                    && err_matches(e, k),
            },
    {
        let ghost s = old(reader).bytes();
        let version = match reader.read_u8() {
            Ok(v) => v,
            Err(e) => {
                return Err(e);
            },
        };
        let flags = match Flags::read(reader) {
            Ok(f) => f,
            Err(e) => {
                return Err(e);
            },
        };
        let reference_id = match reader.read_u32() {
            Ok(v) => v,
            Err(e) => {
                return Err(e);
            },
        };
        let timescale = match reader.read_u32() {
            Ok(v) => v,
            Err(e) => {
                return Err(e);
            },
        };
        let (earliest_presentation_time, first_offset) = if version == 0 {
            let a = match reader.read_u32() {
                Ok(v) => v as u64,
                Err(e) => {
                    return Err(e);
                },
            };
            let b = match reader.read_u32() {
                Ok(v) => v as u64,
                Err(e) => {
                    return Err(e);
                },
            };
            (a, b)
        } else {
            let a = match reader.read_u64() {
                Ok(v) => v,
                Err(e) => {
                    return Err(e);
                },
            };
            let b = match reader.read_u64() {
                Ok(v) => v,
                Err(e) => {
                    return Err(e);
                },
            };
            (a, b)
        };
        let reserved = match reader.read_u16() {
            Ok(v) => v,
            Err(e) => {
                return Err(e);
            },
        };
        let reference_count = match reader.read_u16() {
            Ok(v) => v,
            Err(e) => {
                return Err(e);
            },
        };
        let ghost q0 = reader.posn();
        let mut references: Vec<SidxReference> = Vec::new();
        let mut i: u16 = 0;
        while i < reference_count
            invariant
                reader.bytes() == s,
                i <= reference_count,
                references@.len() == i as int,
                reader.posn() <= s.len(),
                sidx_refs(s, q0, reference_count as int) == (match sidx_refs(
                    s,
                    reader.posn(),
                    reference_count - i,
                ) {
                    Ok((tail, end)) => Ok::<(Seq<SidxReference>, int), ErrKind>(
                        (references@ + tail, end),
                    ),
                    Err(k) => Err::<(Seq<SidxReference>, int), ErrKind>(k),
                }),
            decreases reference_count - i,
        {
            let ghost pre = references@;
            let ghost p_at = reader.posn();
            let first_4_bytes = match reader.read_u32() {
                Ok(v) => v,
                Err(e) => {
                    return Err(e);
                },
            };
            let subsegment_duration = match reader.read_u32() {
                Ok(v) => v,
                Err(e) => {
                    return Err(e);
                },
            };
            let third_4_bytes = match reader.read_u32() {
                Ok(v) => v,
                Err(e) => {
                    return Err(e);
                },
            };
            let reference = SidxReference {
                reference_type: (first_4_bytes >> 31) as u8 & 0x01,
                referenced_size: first_4_bytes & 0x7FFF_FFFF,
                subsegment_duration,
                starts_with_sap: ((third_4_bytes >> 31) & 0x01) != 0,
                sap_type: ((third_4_bytes >> 28) & 0x07) as u8,
                sap_delta_time: third_4_bytes & 0x0FFF_FFFF,
            };
            proof {
                assert(reference == sidx_ref_at(s, p_at));
            }
            references.push(reference);
            i = i + 1;
            proof {
                assert(references@ =~= pre + seq![reference]);
                if let Ok((tail, end)) = sidx_refs(s, reader.posn(), reference_count - i) {
                    assert((pre + seq![reference]) + tail =~= pre + (seq![reference] + tail));
                }
            }
        }
        proof {
            if let Ok((tail, end)) = sidx_refs(s, reader.posn(), 0) {
                assert(references@ + tail =~= references@);
            }
        }
        Ok(
            Sidx {
                version,
                flags,
                reference_id,
                timescale,
                earliest_presentation_time,
                first_offset,
                reserved,
                reference_count,
                references,
            },
        )
    }

    pub fn get_short_name() -> (r: &'static str)
        ensures
            r@ == "sidx"@,
    {
        "sidx"
    }

    pub fn get_long_name() -> (r: &'static str)
        ensures
            r@ == "Segment Index Box"@,
    {
        "Segment Index Box"
    }

    /// The named field values of this box: the fixed fields, then one
    /// record per reference.
    #[verifier::loop_isolation(false)]
    pub fn get_inner_values(&self) -> (r: Vec<(&'static str, BoxValue)>)
        ensures
            r@.len() == 9,
            r@[0].0@ == "version"@ && r@[0].1 == BoxValue::UInt8(self.version),
            r@[1].0@ == "flags"@ && r@[1].1 == BoxValue::Flags(self.flags),
            r@[2].0@ == "reference_id"@ && r@[2].1 == BoxValue::UInt32(self.reference_id),
            r@[3].0@ == "timescale"@ && r@[3].1 == BoxValue::UInt32(self.timescale),
            r@[4].0@ == "earliest_presentation_time"@ && r@[4].1 == BoxValue::UInt64(
                self.earliest_presentation_time,
            ),
            r@[5].0@ == "first_offset"@ && r@[5].1 == BoxValue::UInt64(self.first_offset),
            r@[6].0@ == "reserved"@ && r@[6].1 == BoxValue::UInt16(self.reserved),
            r@[7].0@ == "reference_count"@ && r@[7].1 == BoxValue::UInt16(self.reference_count),
            r@[8].0@ == "references"@,
            r@[8].1 matches BoxValue::Collection(rows) && rows@.len() == self.references@.len() && (
            forall|i: int|
                0 <= i < rows@.len() ==> sidx_row_ok(#[trigger] rows@[i]@, self.references@[i])),
    {
        let mut values: Vec<(&'static str, BoxValue)> = Vec::new();
        values.push(("version", BoxValue::UInt8(self.version)));
        values.push(("flags", BoxValue::Flags(self.flags)));
        values.push(("reference_id", BoxValue::UInt32(self.reference_id)));
        values.push(("timescale", BoxValue::UInt32(self.timescale)));
        values.push(
            ("earliest_presentation_time", BoxValue::UInt64(self.earliest_presentation_time)),
        );
        values.push(("first_offset", BoxValue::UInt64(self.first_offset)));
        values.push(("reserved", BoxValue::UInt16(self.reserved)));
        values.push(("reference_count", BoxValue::UInt16(self.reference_count)));
        let mut rows: Vec<Vec<(&'static str, BoxValue)>> = Vec::new();
        let mut i: usize = 0;
        while i < self.references.len()
            invariant
                i <= self.references@.len(),
                rows@.len() == i as int,
                forall|j: int|
                    0 <= j < i as int ==> sidx_row_ok(#[trigger] rows@[j]@, self.references@[j]),
            decreases self.references@.len() - i,
        {
            let reference = &self.references[i];
            let mut row: Vec<(&'static str, BoxValue)> = Vec::new();
            row.push(("reference_type", BoxValue::UInt8(reference.reference_type)));
            row.push(("referenced_size", BoxValue::UInt32(reference.referenced_size)));
            row.push(("subsegment_duration", BoxValue::UInt32(reference.subsegment_duration)));
            row.push(("starts_with_sap", BoxValue::Bool(reference.starts_with_sap)));
            row.push(("sap_type", BoxValue::UInt8(reference.sap_type)));
            row.push(("sap_delta_time", BoxValue::UInt32(reference.sap_delta_time)));
            rows.push(row);
            i = i + 1;
        }
        values.push(("references", BoxValue::Collection(rows)));
        values
    }

    /// `sidx` contains fields, never further boxes.
    pub fn get_contained_boxes(&self) -> (r: Option<&Vec<crate::box_types::IsoBoxData>>)
        ensures
            r is None,
    {
        None
    }
}

/// One rendered reference record holds exactly the reference's fields, in
/// declaration order.
pub open spec fn sidx_row_ok(row: Seq<(&'static str, BoxValue)>, x: SidxReference) -> bool {
    &&& row.len() == 6
    &&& row[0].0@ == "reference_type"@ && row[0].1 == BoxValue::UInt8(x.reference_type)
    &&& row[1].0@ == "referenced_size"@ && row[1].1 == BoxValue::UInt32(x.referenced_size)
    &&& row[2].0@ == "subsegment_duration"@ && row[2].1 == BoxValue::UInt32(x.subsegment_duration)
    &&& row[3].0@ == "starts_with_sap"@ && row[3].1 == BoxValue::Bool(x.starts_with_sap)
    &&& row[4].0@ == "sap_type"@ && row[4].1 == BoxValue::UInt8(x.sap_type)
    &&& row[5].0@ == "sap_delta_time"@ && row[5].1 == BoxValue::UInt32(x.sap_delta_time)
}

} // verus!
