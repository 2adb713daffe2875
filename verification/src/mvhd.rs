//! Movie Header Box (`mvhd`).

use vstd::prelude::*;
use crate::box_reader::BoxReader;
use crate::box_types::{BoxInfo, BoxValue, Flags, flags_value};
use crate::bytes::{be16, be32, be64};
use crate::error::{BoxParsingError, ErrKind, decoder_err, err_matches};

verus! {

broadcast use vstd::array::group_array_axioms;

pub struct Mvhd {
    pub version: u8,
    pub flags: Flags,
    pub creation_time: u64,
    pub modification_time: u64,
    pub timescale: u32,
    pub duration: u64,
    pub rate: [u16; 2],
    pub volume: [u8; 2],
    pub reserved_1: u16,
    pub reserved_2: [u32; 2],
    pub matrix: [u32; 9],
    pub pre_defined: [u32; 6],
    pub next_track_id: u32,
}

/// Start of the fixed tail that follows the version-gated time fields.
pub open spec fn mvhd_tail(p: int, version: u8) -> int {
    p + 4 + if version == 1 {
        28int
    } else {
        16int
    }
}

/// Where decoding an `mvhd` payload that starts at `p` leaves the cursor.
/// Versions `0` and `1` are accepted, selecting 32-bit or 64-bit time
/// fields; the check runs after the flags are read.
pub open spec fn mvhd_end(s: Seq<u8>, p: int) -> Result<int, ErrKind> {
    if p + 4 > s.len() {
        Err(ErrKind::EndOfStream)
    } else if s[p] != 0 && s[p] != 1 {
        Err(ErrKind::BadVersion { expected: seq![0u8, 1u8], actual: s[p] })
    } else if mvhd_tail(p, s[p]) + 80 > s.len() {
        Err(ErrKind::EndOfStream)
    } else {
        Ok(mvhd_tail(p, s[p]) + 80)
    }
}

/// The fields of `h` are exactly those encoded at `p`.
pub open spec fn mvhd_ok(h: Mvhd, s: Seq<u8>, p: int) -> bool {
    let q = mvhd_tail(p, h.version);
    &&& h.version == s[p]
    &&& h.flags.0 == flags_value(s[p + 1], s[p + 2], s[p + 3])
    &&& h.creation_time as int == if h.version == 1 {
        be64(s, p + 4)
    } else {
        be32(s, p + 4)
    }
    &&& h.modification_time as int == if h.version == 1 {
        be64(s, p + 12)
    } else {
        be32(s, p + 8)
    }
    &&& h.timescale as int == be32(s, p + if h.version == 1 {
        20int
    } else {
        12int
    })
    &&& h.duration as int == if h.version == 1 {
        be64(s, p + 24)
    } else {
        be32(s, p + 16)
    }
    &&& h.rate@[0] as int == be16(s, q) && h.rate@[1] as int == be16(s, q + 2)
    &&& h.volume@[0] == s[q + 4] && h.volume@[1] == s[q + 5]
    &&& h.reserved_1 as int == be16(s, q + 6)
    &&& h.reserved_2@[0] as int == be32(s, q + 8) && h.reserved_2@[1] as int == be32(s, q + 12)
    &&& forall|i: int| 0 <= i < 9 ==> #[trigger] h.matrix@[i] as int == be32(s, q + 16 + 4 * i)
    &&& forall|i: int| 0 <= i < 6 ==> #[trigger] h.pre_defined@[i] as int == be32(s, q + 52 + 4 * i)
    &&& h.next_track_id as int == be32(s, q + 76)
}

impl Mvhd {
    pub fn parse(reader: &mut BoxReader, _content_size: Option<u64>, info: &BoxInfo) -> (r: Result<
        Mvhd,
        BoxParsingError,
    >)
        ensures
            final(reader).bytes() == old(reader).bytes(),
            r is Ok <==> mvhd_end(old(reader).bytes(), old(reader).posn()) is Ok,
            match r {
                Ok(h) => {
                    &&& mvhd_ok(h, old(reader).bytes(), old(reader).posn())
                    &&& mvhd_end(old(reader).bytes(), old(reader).posn()) matches Ok(end)
                        && final(reader).posn() == end
                },
                Err(e) => {
                    &&& mvhd_end(old(reader).bytes(), old(reader).posn()) matches Err(k)
                        && err_matches(e, k)
                    &&& decoder_err(e, *info)
                },
            },
    {
        let version = match reader.read_u8() {
            Ok(v) => v,
            Err(e) => {
                return Err(e);
            },
        };
        let flags = match Flags::read(reader) {
            Ok(f) => f,
            Err(e) => {
                return Err(e);
            },
        };
        let (creation_time, modification_time, timescale, duration) = if version == 0 {
            let c = match reader.read_u32() {
                Ok(v) => v as u64,
                Err(e) => {
                    return Err(e);
                },
            };
            let m = match reader.read_u32() {
                Ok(v) => v as u64,
                Err(e) => {
                    return Err(e);
                },
            };
            let t = match reader.read_u32() {
                Ok(v) => v,
                Err(e) => {
                    return Err(e);
                },
            };
            let d = match reader.read_u32() {
                Ok(v) => v as u64,
                Err(e) => {
                    return Err(e);
                },
            };
            (c, m, t, d)
        } else if version == 1 {
            let c = match reader.read_u64() {
                Ok(v) => v,
                Err(e) => {
                    return Err(e);
                },
            };
            let m = match reader.read_u64() {
                Ok(v) => v,
                Err(e) => {
                    return Err(e);
                },
            };
            let t = match reader.read_u32() {
                Ok(v) => v,
                Err(e) => {
                    return Err(e);
                },
            };
            let d = match reader.read_u64() {
                Ok(v) => v,
                Err(e) => {
                    return Err(e);
                },
            };
            (c, m, t, d)
        } else {
            let mut expected: Vec<u8> = Vec::new();
            expected.push(0);
            expected.push(1);
            proof {
                assert(expected@ =~= seq![0u8, 1u8]);
            }
            return Err(
                BoxParsingError::InvalidVersion { info: info.clone(), expected, actual: version },
            );
        };
        let r0 = match reader.read_u16() {
            Ok(v) => v,
            Err(e) => {
                return Err(e);
            },
        };
        let r1 = match reader.read_u16() {
            Ok(v) => v,
            Err(e) => {
                return Err(e);
            },
        };
        let rate = [r0, r1];
        let v0 = match reader.read_u8() {
            Ok(v) => v,
            Err(e) => {
                return Err(e);
            },
        };
        let v1 = match reader.read_u8() {
            Ok(v) => v,
            Err(e) => {
                return Err(e);
            },
        };
        let volume = [v0, v1];
        let reserved_1 = match reader.read_u16() {
            Ok(v) => v,
            Err(e) => {
                return Err(e);
            },
        };
        let s0 = match reader.read_u32() {
            Ok(v) => v,
            Err(e) => {
                return Err(e);
            },
        };
        let s1 = match reader.read_u32() {
            Ok(v) => v,
            Err(e) => {
                return Err(e);
            },
        };
        let reserved_2 = [s0, s1];
        let m0 = match reader.read_u32() {
            Ok(v) => v,
            Err(e) => {
                return Err(e);
            },
        };
        let m1 = match reader.read_u32() {
            Ok(v) => v,
            Err(e) => {
                return Err(e);
            },
        };
        let m2 = match reader.read_u32() {
            Ok(v) => v,
            Err(e) => {
                return Err(e);
            },
        };
        let m3 = match reader.read_u32() {
            Ok(v) => v,
            Err(e) => {
                return Err(e);
            },
        };
        let m4 = match reader.read_u32() {
            Ok(v) => v,
            Err(e) => {
                return Err(e);
            },
        };
        let m5 = match reader.read_u32() {
            Ok(v) => v,
            Err(e) => {
                return Err(e);
            },
        };
        let m6 = match reader.read_u32() {
            Ok(v) => v,
            Err(e) => {
                return Err(e);
            },
        };
        let m7 = match reader.read_u32() {
            Ok(v) => v,
            Err(e) => {
                return Err(e);
            },
        };
        let m8 = match reader.read_u32() {
            Ok(v) => v,
            Err(e) => {
                return Err(e);
            },
        };
        let matrix = [m0, m1, m2, m3, m4, m5, m6, m7, m8];
        let d0 = match reader.read_u32() {
            Ok(v) => v,
            Err(e) => {
                return Err(e);
            },
        };
        let d1 = match reader.read_u32() {
            Ok(v) => v,
            Err(e) => {
                return Err(e);
            },
        };
        let d2 = match reader.read_u32() {
            Ok(v) => v,
            Err(e) => {
                return Err(e);
            },
        };
        let d3 = match reader.read_u32() {
            Ok(v) => v,
            Err(e) => {
                return Err(e);
            },
        };
        let d4 = match reader.read_u32() {
            Ok(v) => v,
            Err(e) => {
                return Err(e);
            },
        };
        let d5 = match reader.read_u32() {
            Ok(v) => v,
            Err(e) => {
                return Err(e);
            },
        };
        let pre_defined = [d0, d1, d2, d3, d4, d5];
        let next_track_id = match reader.read_u32() {
            Ok(v) => v,
            Err(e) => {
                return Err(e);
            },
        };
        Ok(
            Mvhd {
                version,
                flags,
                creation_time,
                modification_time,
                timescale,
                duration,
                rate,
                volume,
                reserved_1,
                reserved_2,
                matrix,
                pre_defined,
                next_track_id,
            },
        )
    }

    pub fn get_short_name() -> (r: &'static str)
        ensures
            r@ == "mvhd"@,
    {
        "mvhd"
    }

    pub fn get_long_name() -> (r: &'static str)
        ensures
            r@ == "Movie Header Box"@,
    {
        "Movie Header Box"
    }

    /// The named field values of this box, in declaration order.
    #[verifier::loop_isolation(false)]
    pub fn get_inner_values(&self) -> (r: Vec<(&'static str, BoxValue)>)
        ensures
            r@.len() == 13,
            r@[0].0@ == "version"@ && r@[0].1 == BoxValue::UInt8(self.version),
            r@[1].0@ == "flags"@ && r@[1].1 == BoxValue::Flags(self.flags),
            r@[2].0@ == "creation_time"@ && r@[2].1 == BoxValue::UInt64(self.creation_time),
            r@[3].0@ == "modification_time"@ && r@[3].1 == BoxValue::UInt64(self.modification_time),
            r@[4].0@ == "timescale"@ && r@[4].1 == BoxValue::UInt32(self.timescale),
            r@[5].0@ == "duration"@ && r@[5].1 == BoxValue::UInt64(self.duration),
            r@[6].0@ == "rate"@ && r@[6].1 == BoxValue::FixedPoint16(self.rate),
            r@[7].0@ == "volume"@ && r@[7].1 == BoxValue::FixedPoint8(self.volume),
            r@[8].0@ == "reserved_1"@ && r@[8].1 == BoxValue::UInt16(self.reserved_1),
            r@[9].0@ == "reserved_2"@,
            r@[9].1 matches BoxValue::UInt32Arr(a) && a@ == self.reserved_2@,
            r@[10].0@ == "matrix"@ && r@[10].1 == BoxValue::Matrix3_3(self.matrix),
            r@[11].0@ == "pre_defined"@,
            r@[11].1 matches BoxValue::UInt32Arr(a) && a@ == self.pre_defined@,
            r@[12].0@ == "next_track_id"@ && r@[12].1 == BoxValue::UInt32(self.next_track_id),
    {
        let mut values: Vec<(&'static str, BoxValue)> = Vec::new();
        values.push(("version", BoxValue::UInt8(self.version)));
        values.push(("flags", BoxValue::Flags(self.flags)));
        values.push(("creation_time", BoxValue::UInt64(self.creation_time)));
        values.push(("modification_time", BoxValue::UInt64(self.modification_time)));
        values.push(("timescale", BoxValue::UInt32(self.timescale)));
        values.push(("duration", BoxValue::UInt64(self.duration)));
        values.push(("rate", BoxValue::FixedPoint16(self.rate)));
        values.push(("volume", BoxValue::FixedPoint8(self.volume)));
        values.push(("reserved_1", BoxValue::UInt16(self.reserved_1)));
        let mut reserved_2: Vec<u32> = Vec::new();
        reserved_2.push(self.reserved_2[0]);
        reserved_2.push(self.reserved_2[1]);
        proof {
            assert(reserved_2@ =~= self.reserved_2@);
        }
        values.push(("reserved_2", BoxValue::UInt32Arr(reserved_2)));
        values.push(("matrix", BoxValue::Matrix3_3(self.matrix)));
        let mut pre_defined: Vec<u32> = Vec::new();
        let mut i: usize = 0;
        while i < 6
            invariant
                i <= 6,
                pre_defined@ == self.pre_defined@.subrange(0, i as int),
            decreases 6 - i,
        {
            pre_defined.push(self.pre_defined[i]);
            i = i + 1;
            proof {
                assert(pre_defined@ =~= self.pre_defined@.subrange(0, i as int));
            }
        }
        proof {
            assert(pre_defined@ =~= self.pre_defined@);
        }
        values.push(("pre_defined", BoxValue::UInt32Arr(pre_defined)));
        values.push(("next_track_id", BoxValue::UInt32(self.next_track_id)));
        values
    }

    /// `mvhd` contains fields, never further boxes.
    pub fn get_contained_boxes(&self) -> (r: Option<&Vec<crate::box_types::IsoBoxData>>)
        ensures
            r is None,
    {
        None
    }
}

} // verus!
