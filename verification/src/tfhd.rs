//! Track Fragment Header Box (`tfhd`).

use vstd::prelude::*;
use crate::box_reader::BoxReader;
use crate::box_types::{BoxInfo, BoxValue, Flags, flags_value};
use crate::bytes::{be32, be64};
use crate::error::{BoxParsingError, ErrKind, decoder_err, err_matches};

verus! {

pub struct Tfhd {
    pub version: u8,
    pub flags: Flags,
    pub track_id: u32,
    pub base_data_offset: Option<u64>,
    pub sample_description_index: Option<u32>,
    pub default_sample_duration: Option<u32>,
    pub default_sample_size: Option<u32>,
    pub default_sample_flags: Option<u32>,
}

/// Total byte length of a `tfhd` payload whose flag register is `fl`:
/// fixed fields plus one optional field per set presence bit.
pub open spec fn tfhd_len(fl: u32) -> int {
    8 + (if fl & 0x1 > 0 {
        8int
    } else {
        0int
    }) + (if fl & 0x2 > 0 {
        4int
    } else {
        0int
    }) + (if fl & 0x8 > 0 {
        4int
    } else {
        0int
    }) + (if fl & 0x10 > 0 {
        4int
    } else {
        0int
    }) + (if fl & 0x20 > 0 {
        4int
    } else {
        0int
    })
}

/// Where decoding a `tfhd` payload that starts at `p` leaves the cursor.
pub open spec fn tfhd_end(s: Seq<u8>, p: int) -> Result<int, ErrKind> {
    if p + 4 > s.len() {
        Err(ErrKind::EndOfStream)
    } else if p + tfhd_len(flags_value(s[p + 1], s[p + 2], s[p + 3])) > s.len() {
        Err(ErrKind::EndOfStream)
    } else {
        Ok(p + tfhd_len(flags_value(s[p + 1], s[p + 2], s[p + 3])))
    }
}

/// The fields of `h` are exactly those encoded at `p`. Fields whose
/// presence bit is unset are absent and occupy no bytes.
pub open spec fn tfhd_ok(h: Tfhd, s: Seq<u8>, p: int) -> bool {
    let fl = flags_value(s[p + 1], s[p + 2], s[p + 3]);
    let o1 = p + 8;
    let o2 = o1 + if fl & 0x1 > 0 {
        8int
    } else {
        0int
    };
    let o3 = o2 + if fl & 0x2 > 0 {
        4int
    } else {
        0int
    };
    let o4 = o3 + if fl & 0x8 > 0 {
        4int
    } else {
        0int
    };
    let o5 = o4 + if fl & 0x10 > 0 {
        4int
    } else {
        0int
    };
    &&& h.version == s[p]
    &&& h.flags.0 == fl
    &&& h.track_id as int == be32(s, p + 4)
    &&& h.base_data_offset == if fl & 0x1 > 0 {
        Some(be64(s, o1) as u64)
    } else {
        None::<u64>
    }
    &&& h.sample_description_index == if fl & 0x2 > 0 {
        Some(be32(s, o2) as u32)
    } else {
        None::<u32>
    }
    &&& h.default_sample_duration == if fl & 0x8 > 0 {
        Some(be32(s, o3) as u32)
    } else {
        None::<u32>
    }
    &&& h.default_sample_size == if fl & 0x10 > 0 {
        Some(be32(s, o4) as u32)
    } else {
        None::<u32>
    }
    &&& h.default_sample_flags == if fl & 0x20 > 0 {
        Some(be32(s, o5) as u32)
    } else {
        None::<u32>
    }
}

impl Tfhd {
    pub fn parse(reader: &mut BoxReader, _content_size: Option<u64>, info: &BoxInfo) -> (r:
        Result<Tfhd, BoxParsingError>)
        ensures
            final(reader).bytes() == old(reader).bytes(),
            r is Ok <==> tfhd_end(old(reader).bytes(), old(reader).posn()) is Ok,
            match r {
                Ok(h) => {
                    &&& tfhd_ok(h, old(reader).bytes(), old(reader).posn())
                    &&& tfhd_end(old(reader).bytes(), old(reader).posn()) matches Ok(end)
                        && final(reader).posn() == end
                },
                Err(e) => {
                    &&& tfhd_end(old(reader).bytes(), old(reader).posn()) matches Err(k)
                        && err_matches(e, k)
                    &&& decoder_err(e, *info)
                },
            },
    {
        let version = match reader.read_u8() {
            Ok(v) => v,
            Err(e) => {
                return Err(e);
            },
        };
        let flags = match Flags::read(reader) {
            Ok(f) => f,
            Err(e) => {
                return Err(e);
            },
        };
        let flag_base_data_offset = flags.has_flag(0x000001);
        let flag_sample_description_index = flags.has_flag(0x000002);
        let flag_default_sample_duration = flags.has_flag(0x000008);
        let flag_default_sample_size = flags.has_flag(0x000010);
        let flag_default_sample_flags = flags.has_flag(0x000020);
        let track_id = match reader.read_u32() {
            Ok(v) => v,
            Err(e) => {
                return Err(e);
            },
        };
        let base_data_offset = if flag_base_data_offset {
            match reader.read_u64() {
                Ok(v) => Some(v),
                Err(e) => {
                    return Err(e);
                },
            }
        } else {
            None
        };
        let sample_description_index = if flag_sample_description_index {
            match reader.read_u32() {
                Ok(v) => Some(v),
                Err(e) => {
                    return Err(e);
                },
            }
        } else {
            None
        };
        let default_sample_duration = if flag_default_sample_duration {
            match reader.read_u32() {
                Ok(v) => Some(v),
                Err(e) => {
                    return Err(e);
                },
            }
        } else {
            None
        };
        let default_sample_size = if flag_default_sample_size {
            match reader.read_u32() {
                Ok(v) => Some(v),
                Err(e) => {
                    return Err(e);
                },
            }
        } else {
            None
        };
        let default_sample_flags = if flag_default_sample_flags {
            match reader.read_u32() {
                Ok(v) => Some(v),
                Err(e) => {
                    return Err(e);
                },
            }
        } else {
            None
        };
        Ok(
            Tfhd {
                version,
                flags,
                track_id,
                base_data_offset,
                sample_description_index,
                default_sample_duration,
                default_sample_size,
                default_sample_flags,
            },
        )
    }

    pub fn get_short_name() -> (r: &'static str)
        ensures
            r@ == "tfhd"@,
    {
        "tfhd"
    }

    pub fn get_long_name() -> (r: &'static str)
        ensures
            r@ == "Track Fragment Header Box"@,
    {
        "Track Fragment Header Box"
    }

    /// The named field values of this box: the fixed fields, then each
    /// optional field that is present, in declaration order.
    pub fn get_inner_values(&self) -> (r: Vec<(&'static str, BoxValue)>)
        ensures
            tfhd_values_ok(r@, *self),
    {
        let mut values: Vec<(&'static str, BoxValue)> = Vec::new();
        values.push(("version", BoxValue::UInt8(self.version)));
        values.push(("flags", BoxValue::Flags(self.flags)));
        values.push(("track_id", BoxValue::UInt32(self.track_id)));
        if let Some(val) = self.base_data_offset {
            values.push(("base_data_offset", BoxValue::UInt64(val)));
        }
        if let Some(val) = self.sample_description_index {
            values.push(("sample_description_index", BoxValue::UInt32(val)));
        }
        if let Some(val) = self.default_sample_duration {
            values.push(("default_sample_duration", BoxValue::UInt32(val)));
        }
        if let Some(val) = self.default_sample_size {
            values.push(("default_sample_size", BoxValue::UInt32(val)));
        }
        if let Some(val) = self.default_sample_flags {
            values.push(("default_sample_flags", BoxValue::UInt32(val)));
        }
        values
    }

    /// `tfhd` contains fields, never further boxes.
    pub fn get_contained_boxes(&self) -> (r: Option<&Vec<crate::box_types::IsoBoxData>>)
        ensures
            r is None,
    {
        None
    }
}

/// The rendered value list holds the fixed fields, then exactly the
/// optional fields that are present, in declaration order.
pub open spec fn tfhd_values_ok(r: Seq<(&'static str, BoxValue)>, h: Tfhd) -> bool {
    let n0: int = 3 + if h.base_data_offset is Some {
        1int
    } else {
        0int
    };
    let n1: int = n0 + if h.sample_description_index is Some {
        1int
    } else {
        0int
    };
    let n2: int = n1 + if h.default_sample_duration is Some {
        1int
    } else {
        0int
    };
    let n3: int = n2 + if h.default_sample_size is Some {
        1int
    } else {
        0int
    };
    let n4: int = n3 + if h.default_sample_flags is Some {
        1int
    } else {
        0int
    };
    &&& r.len() == n4
    &&& r[0].0@ == "version"@ && r[0].1 == BoxValue::UInt8(h.version)
    &&& r[1].0@ == "flags"@ && r[1].1 == BoxValue::Flags(h.flags)
    &&& r[2].0@ == "track_id"@ && r[2].1 == BoxValue::UInt32(h.track_id)
    &&& h.base_data_offset matches Some(v) ==> r[3].0@ == "base_data_offset"@ && r[3].1
        == BoxValue::UInt64(v)
    &&& h.sample_description_index matches Some(v) ==> r[n0].0@ == "sample_description_index"@
        && r[n0].1 == BoxValue::UInt32(v)
    &&& h.default_sample_duration matches Some(v) ==> r[n1].0@ == "default_sample_duration"@
        && r[n1].1 == BoxValue::UInt32(v)
    &&& h.default_sample_size matches Some(v) ==> r[n2].0@ == "default_sample_size"@ && r[n2].1
        == BoxValue::UInt32(v)
    &&& h.default_sample_flags matches Some(v) ==> r[n3].0@ == "default_sample_flags"@ && r[n3].1
        == BoxValue::UInt32(v)
}

} // verus!
