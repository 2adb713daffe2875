//! Sub-Sample Information Box (`subs`).

use vstd::prelude::*;
use crate::box_reader::BoxReader;
use crate::box_types::{BoxInfo, BoxValue, Flags, flags_value};
use crate::bytes::{be16, be32};
use crate::error::{BoxParsingError, ErrKind, decoder_err, err_matches};

verus! {

pub struct SubsEntry {
    pub sample_delta: u32,
    pub subsample_count: u16,
    pub subsample_size: Vec<u32>,
    pub subsample_priority: u8,
    pub discardable: u8,
    pub codec_specific_parameters: u32,
}

pub struct Subs {
    pub version: u8,
    pub flags: Flags,
    pub entry_count: u32,
    pub entries: Vec<SubsEntry>,
}

/// Ghost image of one entry: delta, subsample count, subsample sizes,
/// priority, discardable, codec-specific parameters.
pub type SubsEntryParts = (u32, u16, Seq<u32>, u8, u8, u32);

/// The `k` subsample sizes read from `p`, 4 bytes each when `wide`
/// (version `1`), else 2, and the position after them.
pub open spec fn subs_sizes(s: Seq<u8>, p: int, k: int, wide: bool) -> Result<
    (Seq<u32>, int),
    ErrKind,
>
    decreases k,
{
    if k <= 0 {
        Ok((seq![], p))
    } else {
        let w: int = if wide {
            4
        } else {
            2
        };
        if p + w > s.len() {
            Err(ErrKind::EndOfStream)
        } else {
            match subs_sizes(s, p + w, k - 1, wide) {
                Ok((tail, end)) => Ok(
                    (
                        seq![
                            if wide {
                                be32(s, p) as u32
                            } else {
                                be16(s, p) as u32
                            },
                        ] + tail,
                        end,
                    ),
                ),
                Err(k0) => Err(k0),
            }
        }
    }
}

/// The `n` entries read from `p`, and the position after them.
pub open spec fn subs_entries(s: Seq<u8>, p: int, n: int, wide: bool) -> Result<
    (Seq<SubsEntryParts>, int),
    ErrKind,
>
    decreases n,
{
    if n <= 0 {
        Ok((seq![], p))
    } else if p + 6 > s.len() {
        Err(ErrKind::EndOfStream)
    } else {
        let delta = be32(s, p) as u32;
        let cnt = be16(s, p + 4);
        match subs_sizes(s, p + 6, cnt, wide) {
            Err(k) => Err(k),
            Ok((sizes, q)) => {
                if q + 6 > s.len() {
                    Err(ErrKind::EndOfStream)
                } else {
                    match subs_entries(s, q + 6, n - 1, wide) {
                        Ok((tail, end)) => Ok(
                            (
                                seq![
                                    (
                                        delta,
                                        cnt as u16,
                                        sizes,
                                        s[q],
                                        s[q + 1],
                                        be32(s, q + 2) as u32,
                                    ),
                                ] + tail,
                                end,
                            ),
                        ),
                        Err(k) => Err(k),
                    }
                }
            },
        }
    }
}

/// The decoded parts of a `subs` payload at `p`: version, flag word,
/// entry count, the entries, and the position after them.
pub open spec fn subs_parsed(s: Seq<u8>, p: int) -> Result<
    ((u8, u32, u32, Seq<SubsEntryParts>), int),
    ErrKind,
> {
    if p + 8 > s.len() {
        Err(ErrKind::EndOfStream)
    } else {
        let fl = flags_value(s[p + 1], s[p + 2], s[p + 3]);
        let n = be32(s, p + 4);
        match subs_entries(s, p + 8, n, s[p] == 1) {
            Ok((entries, end)) => Ok(((s[p], fl, n as u32, entries), end)),
            Err(k) => Err(k),
        }
    }
}

/// The fields of `e` are exactly the ghost parts `g`.
pub open spec fn subs_entry_matches(e: SubsEntry, g: SubsEntryParts) -> bool {
    &&& e.sample_delta == g.0
    &&& e.subsample_count == g.1
    &&& e.subsample_size@ == g.2
    &&& e.subsample_priority == g.3
    &&& e.discardable == g.4
    &&& e.codec_specific_parameters == g.5
}

/// The fields of `b` are exactly the ghost parts `g`.
pub open spec fn subs_matches(b: Subs, g: (u8, u32, u32, Seq<SubsEntryParts>)) -> bool {
    &&& b.version == g.0
    &&& b.flags.0 == g.1
    &&& b.entry_count == g.2
    &&& b.entries@.len() == g.3.len()
    &&& forall|i: int|
        0 <= i < g.3.len() ==> subs_entry_matches(#[trigger] b.entries@[i], g.3[i])
}

impl Subs {
    #[verifier::loop_isolation(false)]
    pub fn parse(reader: &mut BoxReader, _content_size: Option<u64>, info: &BoxInfo) -> (r:
        Result<Subs, BoxParsingError>)
        ensures
            final(reader).bytes() == old(reader).bytes(),
            r is Ok <==> subs_parsed(old(reader).bytes(), old(reader).posn()) is Ok,
            match r {
                Ok(b) => subs_parsed(old(reader).bytes(), old(reader).posn()) matches Ok((g, end))
                    && subs_matches(b, g) && final(reader).posn() == end,
                Err(e) => {
                    &&& subs_parsed(old(reader).bytes(), old(reader).posn()) matches Err(k)
                        && err_matches(e, k)
                    &&& decoder_err(e, *info)
                },
            },
    {
        let ghost s = old(reader).bytes();
        let version = match reader.read_u8() {
            Ok(v) => v,
            Err(e) => {
                return Err(e);
            },
        };
        let flags = match Flags::read(reader) {
            Ok(f) => f,
            Err(e) => {
                return Err(e);
            },
        };
        let entry_count = match reader.read_u32() {
            Ok(v) => v,
            Err(e) => {
                return Err(e);
            },
        };
        let wide = version == 1;
        let ghost q0 = reader.posn();
        let mut entries: Vec<SubsEntry> = Vec::new();
        let ghost mut entries_parts: Seq<SubsEntryParts> = seq![];
        let mut i: u32 = 0;
        while i < entry_count
            invariant
                reader.bytes() == s,
                i <= entry_count,
                entries@.len() == i as int,
                entries_parts.len() == i as int,
                forall|j: int|
                    0 <= j < i as int ==> subs_entry_matches(
                        #[trigger] entries@[j],
                        entries_parts[j],
                    ),
                reader.posn() <= s.len(),
                wide == (version == 1),
                subs_entries(s, q0, entry_count as int, wide) == (match subs_entries(
                    s,
                    reader.posn(),
                    entry_count - i,
                    wide,
                ) {
                    Ok((tail, end)) => Ok::<(Seq<SubsEntryParts>, int), ErrKind>(
                        (entries_parts + tail, end),
                    ),
                    Err(k) => Err::<(Seq<SubsEntryParts>, int), ErrKind>(k),
                }),
            decreases entry_count - i,
        {
            let sample_delta = match reader.read_u32() {
                Ok(v) => v,
                Err(e) => {
                    return Err(e);
                },
            };
            let subsample_count = match reader.read_u16() {
                Ok(v) => v,
                Err(e) => {
                    return Err(e);
                },
            };
            let ghost sz0 = reader.posn();
            let mut subsample_size: Vec<u32> = Vec::new();
            let mut k: u16 = 0;
            while k < subsample_count
                invariant
                    reader.bytes() == s,
                    k <= subsample_count,
                    subsample_size@.len() == k as int,
                    reader.posn() <= s.len(),
                    wide == (version == 1),
                    subs_sizes(s, sz0, subsample_count as int, wide) == (match subs_sizes(
                        s,
                        reader.posn(),
                        subsample_count - k,
                        wide,
                    ) {
                        Ok((tail, end)) => Ok::<(Seq<u32>, int), ErrKind>(
                            (subsample_size@ + tail, end),
                        ),
                        Err(k0) => Err::<(Seq<u32>, int), ErrKind>(k0),
                    }),
                decreases subsample_count - k,
            {
                let ghost pre = subsample_size@;
                let sz = if wide {
                    match reader.read_u32() {
                        Ok(v) => v,
                        Err(e) => {
                            return Err(e);
                        },
                    }
                } else {
                    match reader.read_u16() {
                        Ok(v) => v as u32,
                        Err(e) => {
                            return Err(e);
                        },
                    }
                };
                subsample_size.push(sz);
                k = k + 1;
                proof {
                    assert(subsample_size@ =~= pre + seq![sz]);
                    if let Ok((tail, end)) = subs_sizes(
                        s,
                        reader.posn(),
                        subsample_count - k,
                        wide,
                    ) {
                        assert((pre + seq![sz]) + tail =~= pre + (seq![sz] + tail));
                    }
                }
            }
            proof {
                if let Ok((tail, end)) = subs_sizes(s, reader.posn(), 0, wide) {
                    assert(subsample_size@ + tail =~= subsample_size@);
                }
            }
            let subsample_priority = match reader.read_u8() {
                Ok(v) => v,
                Err(e) => {
                    return Err(e);
                },
            };
            let discardable = match reader.read_u8() {
                Ok(v) => v,
                Err(e) => {
                    return Err(e);
                },
            };
            let codec_specific_parameters = match reader.read_u32() {
                Ok(v) => v,
                Err(e) => {
                    return Err(e);
                },
            };
            let ghost part = (
                sample_delta,
                subsample_count,
                subsample_size@,
                subsample_priority,
                discardable,
                codec_specific_parameters,
            );
            let ghost pre_parts = entries_parts;
            entries.push(
                SubsEntry {
                    sample_delta,
                    subsample_count,
                    subsample_size,
                    subsample_priority,
                    discardable,
                    codec_specific_parameters,
                },
            );
            proof {
                entries_parts = entries_parts + seq![part];
            }
            i = i + 1;
            proof {
                if let Ok((tail, end)) = subs_entries(s, reader.posn(), entry_count - i, wide) {
                    assert((pre_parts + seq![part]) + tail =~= pre_parts + (seq![part] + tail));
                }
            }
        }
        proof {
            if let Ok((tail, end)) = subs_entries(s, reader.posn(), 0, wide) {
                assert(entries_parts + tail =~= entries_parts);
            }
        }
        Ok(Subs { version, flags, entry_count, entries })
    }

    pub fn get_short_name() -> (r: &'static str)
        ensures
            r@ == "subs"@,
    {
        "subs"
    }

    pub fn get_long_name() -> (r: &'static str)
        ensures
            r@ == "Sub-Sample Information Box"@,
    {
        "Sub-Sample Information Box"
    }

    /// The named field values of this box: the fixed fields, then one
    /// record per entry.
    #[verifier::loop_isolation(false)]
    pub fn get_inner_values(&self) -> (r: Vec<(&'static str, BoxValue)>)
        ensures
            r@.len() == 4,
            r@[0].0@ == "version"@ && r@[0].1 == BoxValue::UInt8(self.version),
            r@[1].0@ == "flags"@ && r@[1].1 == BoxValue::Flags(self.flags),
            r@[2].0@ == "entry_count"@ && r@[2].1 == BoxValue::UInt32(self.entry_count),
            r@[3].0@ == "entries"@,
            r@[3].1 matches BoxValue::Collection(rows) && rows@.len() == self.entries@.len() && (
            forall|i: int|
                0 <= i < rows@.len() ==> subs_row_ok(#[trigger] rows@[i]@, self.entries@[i])),
    {
        let mut values: Vec<(&'static str, BoxValue)> = Vec::new();
        values.push(("version", BoxValue::UInt8(self.version)));
        values.push(("flags", BoxValue::Flags(self.flags)));
        values.push(("entry_count", BoxValue::UInt32(self.entry_count)));
        let mut rows: Vec<Vec<(&'static str, BoxValue)>> = Vec::new();
        let mut i: usize = 0;
        while i < self.entries.len()
            invariant
                i <= self.entries@.len(),
                rows@.len() == i as int,
                forall|j: int|
                    0 <= j < i as int ==> subs_row_ok(#[trigger] rows@[j]@, self.entries@[j]),
            decreases self.entries@.len() - i,
        {
            let entry = &self.entries[i];
            let mut row: Vec<(&'static str, BoxValue)> = Vec::new();
            row.push(("sample_delta", BoxValue::UInt32(entry.sample_delta)));
            row.push(("subsample_count", BoxValue::UInt16(entry.subsample_count)));
            let mut sizes: Vec<u32> = Vec::new();
            let mut k: usize = 0;
            while k < entry.subsample_size.len()
                invariant
                    k <= entry.subsample_size@.len(),
                    sizes@ == entry.subsample_size@.subrange(0, k as int),
                decreases entry.subsample_size@.len() - k,
            {
                sizes.push(entry.subsample_size[k]);
                k = k + 1;
                proof {
                    assert(sizes@ =~= entry.subsample_size@.subrange(0, k as int));
                }
            }
            proof {
                assert(entry.subsample_size@.subrange(0, entry.subsample_size@.len() as int)
                    =~= entry.subsample_size@);
            }
            row.push(("subsample_size", BoxValue::UInt32Arr(sizes)));
            row.push(("subsample_priority", BoxValue::UInt8(entry.subsample_priority)));
            row.push(("discardable", BoxValue::UInt8(entry.discardable)));
            row.push(
                ("codec_specific_parameters", BoxValue::UInt32(entry.codec_specific_parameters)),
            );
            rows.push(row);
            i = i + 1;
        }
        values.push(("entries", BoxValue::Collection(rows)));
        values
    }

    /// `subs` contains fields, never further boxes.
    pub fn get_contained_boxes(&self) -> (r: Option<&Vec<crate::box_types::IsoBoxData>>)
        ensures
            r is None,
    {
        None
    }
}

/// One rendered entry record holds exactly the entry's fields, in
/// declaration order.
pub open spec fn subs_row_ok(row: Seq<(&'static str, BoxValue)>, e: SubsEntry) -> bool {
    &&& row.len() == 6
    &&& row[0].0@ == "sample_delta"@ && row[0].1 == BoxValue::UInt32(e.sample_delta)
    &&& row[1].0@ == "subsample_count"@ && row[1].1 == BoxValue::UInt16(e.subsample_count)
    &&& row[2].0@ == "subsample_size"@ && (row[2].1 matches BoxValue::UInt32Arr(a) && a@
        == e.subsample_size@)
    &&& row[3].0@ == "subsample_priority"@ && row[3].1 == BoxValue::UInt8(e.subsample_priority)
    &&& row[4].0@ == "discardable"@ && row[4].1 == BoxValue::UInt8(e.discardable)
    &&& row[5].0@ == "codec_specific_parameters"@ && row[5].1 == BoxValue::UInt32(
        e.codec_specific_parameters,
    )
}

} // verus!
