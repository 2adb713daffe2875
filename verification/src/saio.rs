//! Sample Auxiliary Information Offsets Box (`saio`).

use vstd::prelude::*;
use crate::box_reader::BoxReader;
use crate::box_types::{BoxInfo, BoxValue, Flags, flags_value};
use crate::bytes::{be32, be64};
use crate::error::{BoxParsingError, ErrKind, decoder_err, err_matches};

verus! {

pub struct Saio {
    pub version: u8,
    pub flags: Flags,
    pub aux_info_type: Option<u32>,
    pub aux_info_type_parameter: Option<u32>,
    pub entry_count: u32,
    pub offset: Vec<u64>,
}

/// The `n` offsets read from `p`, 8 bytes each when `wide` (version other
/// than `0`), else 4, and the position after them.
pub open spec fn saio_offsets(s: Seq<u8>, p: int, n: int, wide: bool) -> Result<
    (Seq<u64>, int),
    ErrKind,
>
    decreases n,
{
    if n <= 0 {
        Ok((seq![], p))
    } else {
        let w: int = if wide {
            8
        } else {
            4
        };
        if p + w > s.len() {
            Err(ErrKind::EndOfStream)
        } else {
            match saio_offsets(s, p + w, n - 1, wide) {
                Ok((tail, end)) => Ok(
                    (
                        seq![
                            if wide {
                                be64(s, p) as u64
                            } else {
                                be32(s, p) as u64
                            },
                        ] + tail,
                        end,
                    ),
                ),
                Err(k) => Err(k),
            }
        }
    }
}

/// The decoded parts of an `saio` payload at `p`: version, flag word, the
/// optional aux-info pair, the entry count, the offsets, and the position
/// after them.
pub open spec fn saio_parsed(s: Seq<u8>, p: int) -> Result<
    ((u8, u32, Option<u32>, Option<u32>, u32, Seq<u64>), int),
    ErrKind,
> {
    if p + 4 > s.len() {
        Err(ErrKind::EndOfStream)
    } else {
        let fl = flags_value(s[p + 1], s[p + 2], s[p + 3]);
        let q = p + 4 + if fl & 0x1 > 0 {
            8int
        } else {
            0int
        };
        if q + 4 > s.len() {
            Err(ErrKind::EndOfStream)
        } else {
            let aux = if fl & 0x1 > 0 {
                Some(be32(s, p + 4) as u32)
            } else {
                None::<u32>
            };
            let aux_param = if fl & 0x1 > 0 {
                Some(be32(s, p + 8) as u32)
            } else {
                None::<u32>
            };
            let n = be32(s, q);
            match saio_offsets(s, q + 4, n, s[p] != 0) {
                Ok((offsets, end)) => Ok(
                    ((s[p], fl, aux, aux_param, n as u32, offsets), end),
                ),
                Err(k) => Err(k),
            }
        }
    }
}

/// The fields of `b` are exactly the ghost parts `g`.
pub open spec fn saio_matches(b: Saio, g: (u8, u32, Option<u32>, Option<u32>, u32, Seq<u64>)) -> bool {
    &&& b.version == g.0
    &&& b.flags.0 == g.1
    &&& b.aux_info_type == g.2
    &&& b.aux_info_type_parameter == g.3
    &&& b.entry_count == g.4
    &&& b.offset@ == g.5
}

impl Saio {
    #[verifier::loop_isolation(false)]
    pub fn parse(reader: &mut BoxReader, _content_size: Option<u64>, info: &BoxInfo) -> (r:
        Result<Saio, BoxParsingError>)
        ensures
            final(reader).bytes() == old(reader).bytes(),
            r is Ok <==> saio_parsed(old(reader).bytes(), old(reader).posn()) is Ok,
            match r {
                Ok(b) => saio_parsed(old(reader).bytes(), old(reader).posn()) matches Ok((g, end))
                    && saio_matches(b, g) && final(reader).posn() == end,
                Err(e) => {
                    &&& saio_parsed(old(reader).bytes(), old(reader).posn()) matches Err(k)
                        && err_matches(e, k)
                    &&& decoder_err(e, *info)
                },
            },
    {
        let ghost s = old(reader).bytes();
        let ghost p0 = old(reader).posn();
        let version = match reader.read_u8() {
            Ok(v) => v,
            Err(e) => {
                return Err(e);
            },
        };
        let flags = match Flags::read(reader) {
            Ok(f) => f,
            Err(e) => {
                return Err(e);
            },
        };
        let (aux_info_type, aux_info_type_parameter) = if flags.has_flag(0x01) {
            let a = match reader.read_u32() {
                Ok(v) => v,
                Err(e) => {
                    return Err(e);
                },
            };
            let b = match reader.read_u32() {
                Ok(v) => v,
                Err(e) => {
                    return Err(e);
                },
            };
            (Some(a), Some(b))
        } else {
            (None, None)
        };
        let entry_count = match reader.read_u32() {
            Ok(v) => v,
            Err(e) => {
                return Err(e);
            },
        };
        let wide = version != 0;
        let ghost q0 = reader.posn();
        let mut offset: Vec<u64> = Vec::new();
        let mut i: u32 = 0;
        while i < entry_count
            invariant
                reader.bytes() == s,
                i <= entry_count,
                offset@.len() == i as int,
                reader.posn() <= s.len(),
                wide == (version != 0),
                saio_offsets(s, q0, entry_count as int, wide) == (match saio_offsets(
                    s,
                    reader.posn(),
                    entry_count - i,
                    wide,
                ) {
                    Ok((tail, end)) => Ok::<(Seq<u64>, int), ErrKind>((offset@ + tail, end)),
                    Err(k) => Err::<(Seq<u64>, int), ErrKind>(k),
                }),
            decreases entry_count - i,
        {
            let ghost pre = offset@;
            let v = if wide {
                match reader.read_u64() {
                    Ok(v) => v,
                    Err(e) => {
                        return Err(e);
                    },
                }
            } else {
                match reader.read_u32() {
                    Ok(v) => v as u64,
                    Err(e) => {
                        return Err(e);
                    },
                }
            };
            offset.push(v);
            i = i + 1;
            proof {
                assert(offset@ =~= pre + seq![v]);
                if let Ok((tail, end)) = saio_offsets(s, reader.posn(), entry_count - i, wide) {
                    assert((pre + seq![v]) + tail =~= pre + (seq![v] + tail));
                }
            }
        }
        proof {
            if let Ok((tail, end)) = saio_offsets(s, reader.posn(), 0, wide) {
                assert(offset@ + tail =~= offset@);
            }
        }
        Ok(Saio { version, flags, aux_info_type, aux_info_type_parameter, entry_count, offset })
    }

    pub fn get_short_name() -> (r: &'static str)
        ensures
            r@ == "saio"@,
    {
        "saio"
    }

    pub fn get_long_name() -> (r: &'static str)
        ensures
            r@ == "Sample Auxiliary Information Offsets Box"@,
    {
        "Sample Auxiliary Information Offsets Box"
    }

    /// The named field values of this box: version and flags, the aux-info
    /// pair when present, the entry count, then one record per offset.
    #[verifier::loop_isolation(false)]
    pub fn get_inner_values(&self) -> (r: Vec<(&'static str, BoxValue)>)
        ensures
            saio_values_ok(r@, *self),
    {
        let mut values: Vec<(&'static str, BoxValue)> = Vec::new();
        values.push(("version", BoxValue::UInt8(self.version)));
        values.push(("flags", BoxValue::Flags(self.flags)));
        if let Some(val) = self.aux_info_type {
            values.push(("aux_info_type", BoxValue::UInt32(val)));
        }
        if let Some(val) = self.aux_info_type_parameter {
            values.push(("aux_info_type_parameter", BoxValue::UInt32(val)));
        }
        values.push(("entry_count", BoxValue::UInt32(self.entry_count)));
        let mut rows: Vec<Vec<(&'static str, BoxValue)>> = Vec::new();
        let mut i: usize = 0;
        while i < self.offset.len()
            invariant
                i <= self.offset@.len(),
                rows@.len() == i as int,
                forall|j: int|
                    0 <= j < i as int ==> (#[trigger] rows@[j])@.len() == 1 && rows@[j]@[0].0@
                        == "offset"@ && rows@[j]@[0].1 == BoxValue::UInt64(self.offset@[j]),
            decreases self.offset@.len() - i,
        {
            let mut row: Vec<(&'static str, BoxValue)> = Vec::new();
            row.push(("offset", BoxValue::UInt64(self.offset[i])));
            rows.push(row);
            i = i + 1;
        }
        values.push(("entries", BoxValue::Collection(rows)));
        values
    }

    /// `saio` contains fields, never further boxes.
    pub fn get_contained_boxes(&self) -> (r: Option<&Vec<crate::box_types::IsoBoxData>>)
        ensures
            r is None,
    {
        None
    }
}

/// The rendered value list holds version and flags, the aux-info pair
/// when present, the entry count, then one record per offset.
pub open spec fn saio_values_ok(r: Seq<(&'static str, BoxValue)>, b: Saio) -> bool {
    &&& r.len() == 4 + (if b.aux_info_type is Some {
        1int
    } else {
        0int
    }) + (if b.aux_info_type_parameter is Some {
        1int
    } else {
        0int
    })
    &&& r[0].0@ == "version"@ && r[0].1 == BoxValue::UInt8(b.version)
    &&& r[1].0@ == "flags"@ && r[1].1 == BoxValue::Flags(b.flags)
    &&& b.aux_info_type matches Some(v) ==> r[2].0@ == "aux_info_type"@ && r[2].1
        == BoxValue::UInt32(v)
    &&& b.aux_info_type_parameter matches Some(v) ==> {
        let at = 2 + if b.aux_info_type is Some {
            1int
        } else {
            0int
        };
        r[at].0@ == "aux_info_type_parameter"@ && r[at].1 == BoxValue::UInt32(v)
    }
    &&& r[r.len() - 2].0@ == "entry_count"@ && r[r.len() - 2].1 == BoxValue::UInt32(b.entry_count)
    &&& r[r.len() - 1].0@ == "entries"@
    &&& r[r.len() - 1].1 matches BoxValue::Collection(rows) && rows@.len() == b.offset@.len() && (
    forall|i: int|
        0 <= i < rows@.len() ==> (#[trigger] rows@[i])@.len() == 1 && rows@[i]@[0].0@ == "offset"@
            && rows@[i]@[0].1 == BoxValue::UInt64(b.offset@[i]))
}

} // verus!
