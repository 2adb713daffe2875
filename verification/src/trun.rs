//! Track Fragment Run Box (`trun`).

use vstd::prelude::*;
use crate::box_reader::BoxReader;
use crate::box_types::{BoxInfo, BoxValue, Flags, flags_value};
use crate::bytes::{be32, be_i32};
use crate::error::{BoxParsingError, ErrKind, decoder_err, err_matches};

verus! {

pub struct TrunSample {
    pub duration: Option<u32>,
    pub size: Option<u32>,
    pub flags: Option<u32>,
    /// Wide enough for both the unsigned (version 0) and the signed
    /// (other versions) encoding of the offset.
    pub composition_time_offset: Option<i64>,
}

pub struct Trun {
    pub version: u8,
    pub flags: Flags,
    pub sample_count: u32,
    pub data_offset: Option<i32>,
    pub first_sample_flags: Option<u32>,
    pub samples: Vec<TrunSample>,
}

/// Byte length of one sample record under the flag word `fl`.
pub open spec fn trun_sample_len(fl: u32) -> int {
    (if fl & 0x100 > 0 {
        4int
    } else {
        0int
    }) + (if fl & 0x200 > 0 {
        4int
    } else {
        0int
    }) + (if fl & 0x400 > 0 {
        4int
    } else {
        0int
    }) + (if fl & 0x800 > 0 {
        4int
    } else {
        0int
    })
}

/// The sample record encoded at `p` under version `version` and flag word
/// `fl`; fields with an unset presence bit are absent and occupy no bytes.
pub open spec fn trun_sample_at(s: Seq<u8>, p: int, version: u8, fl: u32) -> TrunSample {
    let p1 = p + if fl & 0x100 > 0 {
        4int
    } else {
        0int
    };
    let p2 = p1 + if fl & 0x200 > 0 {
        4int
    } else {
        0int
    };
    let p3 = p2 + if fl & 0x400 > 0 {
        4int
    } else {
        0int
    };
    TrunSample {
        duration: if fl & 0x100 > 0 {
            Some(be32(s, p) as u32)
        } else {
            None
        },
        size: if fl & 0x200 > 0 {
            Some(be32(s, p1) as u32)
        } else {
            None
        },
        flags: if fl & 0x400 > 0 {
            Some(be32(s, p2) as u32)
        } else {
            None
        },
        composition_time_offset: if fl & 0x800 > 0 {
            Some(
                if version == 0 {
                    be32(s, p3) as i64
                } else {
                    be_i32(s, p3) as i64
                },
            )
        } else {
            None
        },
    }
}

/// The `n` sample records read from `p`, and the position after them.
pub open spec fn trun_samples(s: Seq<u8>, p: int, n: int, version: u8, fl: u32) -> Result<
    (Seq<TrunSample>, int),
    ErrKind,
>
    decreases n,
{
    if n <= 0 {
        Ok((seq![], p))
    } else if p + trun_sample_len(fl) > s.len() {
        Err(ErrKind::EndOfStream)
    } else {
        match trun_samples(s, p + trun_sample_len(fl), n - 1, version, fl) {
            Ok((tail, end)) => Ok((seq![trun_sample_at(s, p, version, fl)] + tail, end)),
            Err(k) => Err(k),
        }
    }
}

/// The decoded parts of a `trun` payload at `p`: version, flag word,
/// sample count, the optional data offset and first-sample flags, the
/// sample records, and the position after them.
pub open spec fn trun_parsed(s: Seq<u8>, p: int) -> Result<
    ((u8, u32, u32, Option<i32>, Option<u32>, Seq<TrunSample>), int),
    ErrKind,
> {
    if p + 4 > s.len() {
        Err(ErrKind::EndOfStream)
    } else {
        let fl = flags_value(s[p + 1], s[p + 2], s[p + 3]);
        let q1 = p + 8 + if fl & 0x1 > 0 {
            4int
        } else {
            0int
        };
        let q2 = q1 + if fl & 0x4 > 0 {
            4int
        } else {
            0int
        };
        if q2 > s.len() {
            Err(ErrKind::EndOfStream)
        } else {
            let n = be32(s, p + 4);
            let data_offset = if fl & 0x1 > 0 {
                Some(be_i32(s, p + 8) as i32)
            } else {
                None::<i32>
            };
            let first_sample_flags = if fl & 0x4 > 0 {
                Some(be32(s, q1) as u32)
            } else {
                None::<u32>
            };
            match trun_samples(s, q2, n, s[p], fl) {
                Ok((samples, end)) => Ok(
                    ((s[p], fl, n as u32, data_offset, first_sample_flags, samples), end),
                ),
                Err(k) => Err(k),
            }
        }
    }
}

/// The fields of `t` are exactly the ghost parts `g`.
pub open spec fn trun_matches(
    t: Trun,
    g: (u8, u32, u32, Option<i32>, Option<u32>, Seq<TrunSample>),
) -> bool {
    &&& t.version == g.0
    &&& t.flags.0 == g.1
    &&& t.sample_count == g.2
    &&& t.data_offset == g.3
    &&& t.first_sample_flags == g.4
    &&& t.samples@ == g.5
}

impl Trun {
    #[verifier::loop_isolation(false)]
    #[verifier::rlimit(60)]
    pub fn parse(reader: &mut BoxReader, _content_size: Option<u64>, info: &BoxInfo) -> (r:
        Result<Trun, BoxParsingError>)
        ensures
            final(reader).bytes() == old(reader).bytes(),
            r is Ok <==> trun_parsed(old(reader).bytes(), old(reader).posn()) is Ok,
            match r {
                Ok(t) => trun_parsed(old(reader).bytes(), old(reader).posn()) matches Ok((g, end))
                    && trun_matches(t, g) && final(reader).posn() == end,
                Err(e) => {
                    &&& trun_parsed(old(reader).bytes(), old(reader).posn()) matches Err(k)
                        && err_matches(e, k)
                    &&& decoder_err(e, *info)
                },
            },
    {
        let ghost s = old(reader).bytes();
        let version = match reader.read_u8() {
            Ok(v) => v,
            Err(e) => {
                return Err(e);
            },
        };
        let flags = match Flags::read(reader) {
            Ok(f) => f,
            Err(e) => {
                return Err(e);
            },
        };
        let flag_data_offset = flags.has_flag(0x000001);
        let flag_first_sample = flags.has_flag(0x000004);
        let flag_sample_duration = flags.has_flag(0x000100);
        let flag_sample_size = flags.has_flag(0x000200);
        let flag_sample = flags.has_flag(0x000400);
        let flag_sample_composition_time_offset = flags.has_flag(0x000800);
        let sample_count = match reader.read_u32() {
            Ok(v) => v,
            Err(e) => {
                return Err(e);
            },
        };
        let data_offset = if flag_data_offset {
            match reader.read_i32() {
                Ok(v) => Some(v),
                Err(e) => {
                    return Err(e);
                },
            }
        } else {
            None
        };
        let first_sample_flags = if flag_first_sample {
            match reader.read_u32() {
                Ok(v) => Some(v),
                Err(e) => {
                    return Err(e);
                },
            }
        } else {
            None
        };
        let ghost q0 = reader.posn();
        let mut samples: Vec<TrunSample> = Vec::new();
        let mut i: u32 = 0;
        while i < sample_count
            invariant
                reader.bytes() == s,
                i <= sample_count,
                samples@.len() == i as int,
                reader.posn() <= s.len(),
                flag_sample_duration == (flags.0 & 0x100 > 0),
                flag_sample_size == (flags.0 & 0x200 > 0),
                flag_sample == (flags.0 & 0x400 > 0),
                flag_sample_composition_time_offset == (flags.0 & 0x800 > 0),
                trun_samples(s, q0, sample_count as int, version, flags.0) == (match trun_samples(
                    s,
                    reader.posn(),
                    sample_count - i,
                    version,
                    flags.0,
                ) {
                    Ok((tail, end)) => Ok::<(Seq<TrunSample>, int), ErrKind>(
                        (samples@ + tail, end),
                    ),
                    Err(k) => Err::<(Seq<TrunSample>, int), ErrKind>(k),
                }),
            decreases sample_count - i,
        {
            let ghost pre = samples@;
            let ghost p_at = reader.posn();
            let duration = if flag_sample_duration {
                match reader.read_u32() {
                    Ok(v) => Some(v),
                    Err(e) => {
                        return Err(e);
                    },
                }
            } else {
                None
            };
            let size = if flag_sample_size {
                match reader.read_u32() {
                    Ok(v) => Some(v),
                    Err(e) => {
                        return Err(e);
                    },
                }
            } else {
                None
            };
            let sflags = if flag_sample {
                match reader.read_u32() {
                    Ok(v) => Some(v),
                    Err(e) => {
                        return Err(e);
                    },
                }
            } else {
                None
            };
            let composition_time_offset = if flag_sample_composition_time_offset {
                if version == 0 {
                    match reader.read_u32() {
                        Ok(v) => Some(v as i64),
                        Err(e) => {
                            return Err(e);
                        },
                    }
                } else {
                    match reader.read_i32() {
                        Ok(v) => Some(v as i64),
                        Err(e) => {
                            return Err(e);
                        },
                    }
                }
            } else {
                None
            };
            let sample = TrunSample { duration, size, flags: sflags, composition_time_offset };
            proof {
                assert(sample == trun_sample_at(s, p_at, version, flags.0));
            }
            samples.push(sample);
            i = i + 1;
            proof {
                assert(samples@ =~= pre + seq![sample]);
                if let Ok((tail, end)) = trun_samples(
                    s,
                    reader.posn(),
                    sample_count - i,
                    version,
                    flags.0,
                ) {
                    assert((pre + seq![sample]) + tail =~= pre + (seq![sample] + tail));
                }
            }
        }
        proof {
            if let Ok((tail, end)) = trun_samples(s, reader.posn(), 0, version, flags.0) {
                assert(samples@ + tail =~= samples@);
            }
        }
        Ok(Trun { version, flags, sample_count, data_offset, first_sample_flags, samples })
    }

    pub fn get_short_name() -> (r: &'static str)
        ensures
            r@ == "trun"@,
    {
        "trun"
    }

    pub fn get_long_name() -> (r: &'static str)
        ensures
            r@ == "Track Fragment Run Box"@,
    {
        "Track Fragment Run Box"
    }

    /// The named field values of this box: the fixed fields, the optional
    /// fields that are present, then one record per sample, each holding
    /// exactly the sample's present fields in declaration order.
    #[verifier::loop_isolation(false)]
    pub fn get_inner_values(&self) -> (r: Vec<(&'static str, BoxValue)>)
        ensures
            r@.len() == 4 + (if self.data_offset is Some {
                1int
            } else {
                0int
            }) + (if self.first_sample_flags is Some {
                1int
            } else {
                0int
            }),
            r@[0].0@ == "version"@ && r@[0].1 == BoxValue::UInt8(self.version),
            r@[1].0@ == "flags"@ && r@[1].1 == BoxValue::Flags(self.flags),
            r@[2].0@ == "sample_count"@ && r@[2].1 == BoxValue::UInt32(self.sample_count),
            self.data_offset matches Some(v) ==> r@[3].0@ == "data_offset"@ && r@[3].1
                == BoxValue::Int32(v),
            self.first_sample_flags matches Some(v) ==> ({
                let at = 3 + if self.data_offset is Some {
                    1int
                } else {
                    0int
                };
                r@[at].0@ == "first_sample_flags"@ && r@[at].1 == BoxValue::UInt32(v)
            }),
            r@[r@.len() - 1].0@ == "samples"@,
            r@[r@.len() - 1].1 matches BoxValue::Collection(rows) && rows@.len()
                == self.samples@.len() && (forall|i: int|
                0 <= i < rows@.len() ==> trun_sample_row_ok(#[trigger] rows@[i]@, self.samples@[i])),
    {
        let mut values: Vec<(&'static str, BoxValue)> = Vec::new();
        values.push(("version", BoxValue::UInt8(self.version)));
        values.push(("flags", BoxValue::Flags(self.flags)));
        values.push(("sample_count", BoxValue::UInt32(self.sample_count)));
        if let Some(val) = self.data_offset {
            values.push(("data_offset", BoxValue::Int32(val)));
        }
        if let Some(val) = self.first_sample_flags {
            values.push(("first_sample_flags", BoxValue::UInt32(val)));
        }
        let mut rows: Vec<Vec<(&'static str, BoxValue)>> = Vec::new();
        let mut i: usize = 0;
        while i < self.samples.len()
            invariant
                i <= self.samples@.len(),
                rows@.len() == i as int,
                forall|j: int|
                    0 <= j < i as int ==> trun_sample_row_ok(
                        #[trigger] rows@[j]@,
                        self.samples@[j],
                    ),
            decreases self.samples@.len() - i,
        {
            let sample = &self.samples[i];
            let mut row: Vec<(&'static str, BoxValue)> = Vec::new();
            if let Some(duration) = sample.duration {
                row.push(("duration", BoxValue::UInt32(duration)));
            }
            if let Some(size) = sample.size {
                row.push(("size", BoxValue::UInt32(size)));
            }
            if let Some(sflags) = sample.flags {
                row.push(("flags", BoxValue::UInt32(sflags)));
            }
            if let Some(cto) = sample.composition_time_offset {
                row.push(("composition_time_offset", BoxValue::Int64(cto)));
            }
            rows.push(row);
            i = i + 1;
        }
        values.push(("samples", BoxValue::Collection(rows)));
        values
    }

    /// `trun` contains fields, never further boxes.
    pub fn get_contained_boxes(&self) -> (r: Option<&Vec<crate::box_types::IsoBoxData>>)
        ensures
            r is None,
    {
        None
    }
}

/// One rendered sample record holds exactly the present fields of the
/// sample, in declaration order.
pub open spec fn trun_sample_row_ok(row: Seq<(&'static str, BoxValue)>, t: TrunSample) -> bool {
    let n0: int = if t.duration is Some {
        1int
    } else {
        0int
    };
    let n1: int = n0 + if t.size is Some {
        1int
    } else {
        0int
    };
    let n2: int = n1 + if t.flags is Some {
        1int
    } else {
        0int
    };
    let n3: int = n2 + if t.composition_time_offset is Some {
        1int
    } else {
        0int
    };
    &&& row.len() == n3
    &&& t.duration matches Some(v) ==> row[0].0@ == "duration"@ && row[0].1 == BoxValue::UInt32(v)
    &&& t.size matches Some(v) ==> row[n0].0@ == "size"@ && row[n0].1 == BoxValue::UInt32(v)
    &&& t.flags matches Some(v) ==> row[n1].0@ == "flags"@ && row[n1].1 == BoxValue::UInt32(v)
    &&& t.composition_time_offset matches Some(v) ==> row[n2].0@ == "composition_time_offset"@
        && row[n2].1 == BoxValue::Int64(v)
}

} // verus!
