//! Sample Auxiliary Information Sizes Box (`saiz`).

use vstd::prelude::*;
use crate::box_reader::BoxReader;
use crate::box_types::{BoxInfo, BoxValue, Flags, flags_value};
use crate::bytes::be32;
use crate::error::{BoxParsingError, ErrKind, decoder_err, err_matches};

verus! {

pub struct Saiz {
    pub version: u8,
    pub flags: Flags,
    pub aux_info_type: Option<u32>,
    pub aux_info_type_parameter: Option<u32>,
    pub default_sample_info_size: u8,
    pub entry_count: u32,
    pub sample_info_size: Vec<u8>,
}

/// The `n` per-sample sizes read from `p`, one byte each, and the position
/// after them.
pub open spec fn saiz_sizes(s: Seq<u8>, p: int, n: int) -> Result<(Seq<u8>, int), ErrKind>
    decreases n,
{
    if n <= 0 {
        Ok((seq![], p))
    } else if p + 1 > s.len() {
        Err(ErrKind::EndOfStream)
    } else {
        match saiz_sizes(s, p + 1, n - 1) {
            Ok((tail, end)) => Ok((seq![s[p]] + tail, end)),
            Err(k) => Err(k),
        }
    }
}

/// The decoded parts of an `saiz` payload at `p`: version, flag word, the
/// optional aux-info pair, the default size, the entry count, the
/// per-sample sizes (empty unless the default size is `0`), and the
/// position after them.
pub open spec fn saiz_parsed(s: Seq<u8>, p: int) -> Result<
    ((u8, u32, Option<u32>, Option<u32>, u8, u32, Seq<u8>), int),
    ErrKind,
> {
    if p + 4 > s.len() {
        Err(ErrKind::EndOfStream)
    } else {
        let fl = flags_value(s[p + 1], s[p + 2], s[p + 3]);
        let q = p + 4 + if fl & 0x1 > 0 {
            8int
        } else {
            0int
        };
        if q + 5 > s.len() {
            Err(ErrKind::EndOfStream)
        } else {
            let aux = if fl & 0x1 > 0 {
                Some(be32(s, p + 4) as u32)
            } else {
                None::<u32>
            };
            let aux_param = if fl & 0x1 > 0 {
                Some(be32(s, p + 8) as u32)
            } else {
                None::<u32>
            };
            let dsize = s[q];
            let n = be32(s, q + 1);
            if dsize != 0 {
                Ok(((s[p], fl, aux, aux_param, dsize, n as u32, seq![]), q + 5))
            } else {
                match saiz_sizes(s, q + 5, n) {
                    Ok((sizes, end)) => Ok(
                        ((s[p], fl, aux, aux_param, dsize, n as u32, sizes), end),
                    ),
                    Err(k) => Err(k),
                }
            }
        }
    }
}

/// The fields of `b` are exactly the ghost parts `g`.
pub open spec fn saiz_matches(
    b: Saiz,
    g: (u8, u32, Option<u32>, Option<u32>, u8, u32, Seq<u8>),
) -> bool {
    &&& b.version == g.0
    &&& b.flags.0 == g.1
    &&& b.aux_info_type == g.2
    &&& b.aux_info_type_parameter == g.3
    &&& b.default_sample_info_size == g.4
    &&& b.entry_count == g.5
    &&& b.sample_info_size@ == g.6
}

impl Saiz {
    #[verifier::loop_isolation(false)]
    pub fn parse(reader: &mut BoxReader, _content_size: Option<u64>, info: &BoxInfo) -> (r:
        Result<Saiz, BoxParsingError>)
        ensures
            final(reader).bytes() == old(reader).bytes(),
            r is Ok <==> saiz_parsed(old(reader).bytes(), old(reader).posn()) is Ok,
            match r {
                Ok(b) => saiz_parsed(old(reader).bytes(), old(reader).posn()) matches Ok((g, end))
                    && saiz_matches(b, g) && final(reader).posn() == end,
                Err(e) => {
                    &&& saiz_parsed(old(reader).bytes(), old(reader).posn()) matches Err(k)
                        && err_matches(e, k)
                    &&& decoder_err(e, *info)
                },
            },
    {
        let ghost s = old(reader).bytes();
        let version = match reader.read_u8() {
            Ok(v) => v,
            Err(e) => {
                return Err(e);
            },
        };
        let flags = match Flags::read(reader) {
            Ok(f) => f,
            Err(e) => {
                return Err(e);
            },
        };
        let (aux_info_type, aux_info_type_parameter) = if flags.has_flag(0x01) {
            let a = match reader.read_u32() {
                Ok(v) => v,
                Err(e) => {
                    return Err(e);
                },
            };
            let b = match reader.read_u32() {
                Ok(v) => v,
                Err(e) => {
                    return Err(e);
                },
            };
            (Some(a), Some(b))
        } else {
            (None, None)
        };
        let default_sample_info_size = match reader.read_u8() {
            Ok(v) => v,
            Err(e) => {
                return Err(e);
            },
        };
        let entry_count = match reader.read_u32() {
            Ok(v) => v,
            Err(e) => {
                return Err(e);
            },
        };
        let sample_info_size: Vec<u8> = if default_sample_info_size != 0 {
            Vec::new()
        } else {
            let ghost q0 = reader.posn();
            let mut sizes: Vec<u8> = Vec::new();
            let mut i: u32 = 0;
            while i < entry_count
                invariant
                    reader.bytes() == s,
                    i <= entry_count,
                    sizes@.len() == i as int,
                    reader.posn() <= s.len(),
                    saiz_sizes(s, q0, entry_count as int) == (match saiz_sizes(
                        s,
                        reader.posn(),
                        entry_count - i,
                    ) {
                        Ok((tail, end)) => Ok::<(Seq<u8>, int), ErrKind>((sizes@ + tail, end)),
                        Err(k) => Err::<(Seq<u8>, int), ErrKind>(k),
                    }),
                decreases entry_count - i,
            {
                let ghost pre = sizes@;
                let v = match reader.read_u8() {
                    Ok(v) => v,
                    Err(e) => {
                        return Err(e);
                    },
                };
                sizes.push(v);
                i = i + 1;
                proof {
                    assert(sizes@ =~= pre + seq![v]);
                    if let Ok((tail, end)) = saiz_sizes(s, reader.posn(), entry_count - i) {
                        assert((pre + seq![v]) + tail =~= pre + (seq![v] + tail));
                    }
                }
            }
            proof {
                if let Ok((tail, end)) = saiz_sizes(s, reader.posn(), 0) {
                    assert(sizes@ + tail =~= sizes@);
                }
            }
            sizes
        };
        Ok(
            Saiz {
                version,
                flags,
                aux_info_type,
                aux_info_type_parameter,
                default_sample_info_size,
                entry_count,
                sample_info_size,
            },
        )
    }

    pub fn get_short_name() -> (r: &'static str)
        ensures
            r@ == "saiz"@,
    {
        "saiz"
    }

    pub fn get_long_name() -> (r: &'static str)
        ensures
            r@ == "Sample Auxiliary Information Sizes Box"@,
    {
        "Sample Auxiliary Information Sizes Box"
    }

    /// The named field values of this box: version and flags, the aux-info
    /// pair when present, the default size and the entry count, then one
    /// record per explicit sample size (present only when the default size
    /// is `0` and the list is not empty).
    #[verifier::loop_isolation(false)]
    pub fn get_inner_values(&self) -> (r: Vec<(&'static str, BoxValue)>)
        ensures
            saiz_values_ok(r@, *self),
    {
        let mut values: Vec<(&'static str, BoxValue)> = Vec::new();
        values.push(("version", BoxValue::UInt8(self.version)));
        values.push(("flags", BoxValue::Flags(self.flags)));
        if let Some(val) = self.aux_info_type {
            values.push(("aux_info_type", BoxValue::UInt32(val)));
        }
        if let Some(val) = self.aux_info_type_parameter {
            values.push(("aux_info_type_parameter", BoxValue::UInt32(val)));
        }
        values.push(("default_sample_info_size", BoxValue::UInt8(self.default_sample_info_size)));
        values.push(("entry_count", BoxValue::UInt32(self.entry_count)));
        if self.sample_info_size.len() > 0 {
            let mut rows: Vec<Vec<(&'static str, BoxValue)>> = Vec::new();
            let mut i: usize = 0;
            while i < self.sample_info_size.len()
                invariant
                    i <= self.sample_info_size@.len(),
                    rows@.len() == i as int,
                    forall|j: int|
                        0 <= j < i as int ==> (#[trigger] rows@[j])@.len() == 1 && rows@[j]@[0].0@
                            == "sample_info_size"@ && rows@[j]@[0].1 == BoxValue::UInt8(
                            self.sample_info_size@[j],
                        ),
                decreases self.sample_info_size@.len() - i,
            {
                let mut row: Vec<(&'static str, BoxValue)> = Vec::new();
                row.push(("sample_info_size", BoxValue::UInt8(self.sample_info_size[i])));
                rows.push(row);
                i = i + 1;
            }
            values.push(("entries", BoxValue::Collection(rows)));
        }
        values
    }

    /// `saiz` contains fields, never further boxes.
    pub fn get_contained_boxes(&self) -> (r: Option<&Vec<crate::box_types::IsoBoxData>>)
        ensures
            r is None,
    {
        None
    }
}

/// The rendered value list holds version and flags, the aux-info pair
/// when present, the default size and the entry count, then one record
/// per explicit sample size when the list is not empty.
pub open spec fn saiz_values_ok(r: Seq<(&'static str, BoxValue)>, b: Saiz) -> bool {
    &&& r.len() == 4 + (if b.aux_info_type is Some {
        1int
    } else {
        0int
    }) + (if b.aux_info_type_parameter is Some {
        1int
    } else {
        0int
    }) + (if b.sample_info_size@.len() > 0 {
        1int
    } else {
        0int
    })
    &&& r[0].0@ == "version"@ && r[0].1 == BoxValue::UInt8(b.version)
    &&& r[1].0@ == "flags"@ && r[1].1 == BoxValue::Flags(b.flags)
    &&& b.aux_info_type matches Some(v) ==> r[2].0@ == "aux_info_type"@ && r[2].1
        == BoxValue::UInt32(v)
    &&& b.aux_info_type_parameter matches Some(v) ==> {
        let at = 2 + if b.aux_info_type is Some {
            1int
        } else {
            0int
        };
        r[at].0@ == "aux_info_type_parameter"@ && r[at].1 == BoxValue::UInt32(v)
    }
    &&& ({
        let base = 2 + (if b.aux_info_type is Some {
            1int
        } else {
            0int
        }) + (if b.aux_info_type_parameter is Some {
            1int
        } else {
            0int
        });
        &&& r[base].0@ == "default_sample_info_size"@ && r[base].1 == BoxValue::UInt8(
            b.default_sample_info_size,
        )
        &&& r[base + 1].0@ == "entry_count"@ && r[base + 1].1 == BoxValue::UInt32(b.entry_count)
    })
    &&& b.sample_info_size@.len() > 0 ==> r[r.len() - 1].0@ == "entries"@ && (r[r.len() - 1].1
        matches BoxValue::Collection(rows) && rows@.len() == b.sample_info_size@.len() && (
    forall|i: int|
        0 <= i < rows@.len() ==> (#[trigger] rows@[i])@.len() == 1 && rows@[i]@[0].0@
            == "sample_info_size"@ && rows@[i]@[0].1 == BoxValue::UInt8(b.sample_info_size@[i])))
}

} // verus!
