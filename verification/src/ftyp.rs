//! File Type Box (`ftyp`).

use vstd::prelude::*;
use vstd::utf8::{valid_utf8, decode_utf8};
use crate::box_reader::BoxReader;
use crate::box_types::{BoxInfo, BoxValue};
use crate::bytes::be32;
use crate::error::{BoxParsingError, ErrKind, decoder_err, err_matches, ReadStrError};

verus! {

pub struct Ftyp {
    pub major_brand: String,
    pub minor_brand: u32,
    pub compatible_brands: Vec<String>,
}

/// The views of a vector of strings.
pub open spec fn strs_views(v: Seq<String>) -> Seq<Seq<char>> {
    Seq::new(v.len(), |i: int| v[i]@)
}

/// The compatible-brand list read from `p` with `rem` content bytes left
/// (`None`: until the end of the stream): 4-character codes are read while
/// at least 4 budget bytes remain and the stream is not exhausted.
/// Returns the brand texts and the position after the last one.
pub open spec fn ftyp_brands(s: Seq<u8>, p: int, rem: Option<int>) -> Result<
    (Seq<Seq<char>>, int),
    ErrKind,
>
    decreases (if p <= s.len() {
        s.len() - p + 1
    } else {
        0
    }),
{
    if (match rem {
        Some(n) => n < 4,
        None => false,
    }) || p >= s.len() {
        Ok((seq![], p))
    } else if p + 4 > s.len() {
        Err(ErrKind::EndOfStream)
    } else if !valid_utf8(s.subrange(p, p + 4)) {
        Err(ErrKind::InvalidText)
    } else {
        match ftyp_brands(
            s,
            p + 4,
            match rem {
                Some(n) => Some(n - 4),
                None => None,
            },
        ) {
            Ok((tail, end)) => Ok((seq![decode_utf8(s.subrange(p, p + 4))] + tail, end)),
            Err(k) => Err(k),
        }
    }
}

/// The decoded parts of an `ftyp` payload at `p` with `content` bytes
/// (`None`: until the end of the stream): major brand, minor brand, the
/// compatible brands, and the position after them.
pub open spec fn ftyp_parsed(s: Seq<u8>, p: int, content: Option<int>) -> Result<
    ((Seq<char>, u32, Seq<Seq<char>>), int),
    ErrKind,
> {
    if p + 4 > s.len() {
        Err(ErrKind::EndOfStream)
    } else if !valid_utf8(s.subrange(p, p + 4)) {
        Err(ErrKind::InvalidText)
    } else if p + 8 > s.len() {
        Err(ErrKind::EndOfStream)
    } else {
        let rem = match content {
            Some(c) => Some(
                if c >= 8 {
                    c - 8
                } else {
                    0
                },
            ),
            None => None::<int>,
        };
        match ftyp_brands(s, p + 8, rem) {
            Ok((brands, end)) => Ok(
                ((decode_utf8(s.subrange(p, p + 4)), be32(s, p + 4) as u32, brands), end),
            ),
            Err(k) => Err(k),
        }
    }
}

/// The fields of `f` are exactly the ghost parts `g`.
pub open spec fn ftyp_matches(f: Ftyp, g: (Seq<char>, u32, Seq<Seq<char>>)) -> bool {
    &&& f.major_brand@ == g.0
    &&& f.minor_brand == g.1
    &&& strs_views(f.compatible_brands@) == g.2
}

impl Ftyp {
    #[verifier::loop_isolation(false)]
    pub fn parse(reader: &mut BoxReader, content_size: Option<u64>, info: &BoxInfo) -> (r: Result<
        Ftyp,
        BoxParsingError,
    >)
        ensures
            final(reader).bytes() == old(reader).bytes(),
            r is Ok <==> ftyp_parsed(
                old(reader).bytes(),
                old(reader).posn(),
                match content_size {
                    Some(n) => Some(n as int),
                    None => None,
                },
            ) is Ok,
            match r {
                Ok(f) => ftyp_parsed(
                    old(reader).bytes(),
                    old(reader).posn(),
                    match content_size {
                        Some(n) => Some(n as int),
                        None => None,
                    },
                ) matches Ok((g, end)) && ftyp_matches(f, g) && final(reader).posn() == end,
                Err(e) => {
                    &&& ftyp_parsed(
                        old(reader).bytes(),
                        old(reader).posn(),
                        match content_size {
                            Some(n) => Some(n as int),
                            None => None,
                        },
                    ) matches Err(k) && err_matches(e, k)
                    &&& decoder_err(e, *info)
                },
            },
    {
        let ghost s = old(reader).bytes();
        let ghost p0 = old(reader).posn();
        let ghost content = (match content_size {
            Some(n) => Some(n as int),
            None => None::<int>,
        });
        let major_brand = match reader.read_str(4) {
            Ok(v) => v,
            Err(ReadStrError::IOError { pos }) => {
                return Err(BoxParsingError::IOError { pos });
            },
            Err(ReadStrError::FromUTF8Error { pos }) => {
                return Err(BoxParsingError::UTF8Error { pos });
            },
        };
        let minor_brand = match reader.read_u32() {
            Ok(v) => v,
            Err(e) => {
                return Err(e);
            },
        };
        let mut compatible_brands: Vec<String> = Vec::new();
        let mut remaining_size: Option<u64> = match content_size {
            Some(c) => Some(
                if c >= 8 {
                    c - 8
                } else {
                    0
                },
            ),
            None => None,
        };
        let ghost rem0 = (match remaining_size {
            Some(n) => Some(n as int),
            None => None::<int>,
        });
        loop
            invariant
                reader.bytes() == s,
                p0 + 8 <= s.len(),
                p0 + 8 <= reader.posn() <= s.len(),
                ftyp_brands(s, p0 + 8, rem0) == (match ftyp_brands(
                    s,
                    reader.posn(),
                    match remaining_size {
                        Some(n) => Some(n as int),
                        None => None::<int>,
                    },
                ) {
                    Ok((tail, end)) => Ok::<(Seq<Seq<char>>, int), ErrKind>(
                        (strs_views(compatible_brands@) + tail, end),
                    ),
                    Err(k) => Err::<(Seq<Seq<char>>, int), ErrKind>(k),
                }),
            decreases s.len() - reader.posn(),
        {
            let stop = match remaining_size {
                Some(n) => n < 4,
                None => false,
            };
            if stop || reader.is_empty() {
                proof {
                    assert(strs_views(compatible_brands@) + seq![]
                        =~= strs_views(compatible_brands@));
                }
                break ;
            }
            let brand = match reader.read_str(4) {
                Ok(v) => v,
                Err(ReadStrError::IOError { pos }) => {
                    return Err(BoxParsingError::IOError { pos });
                },
                Err(ReadStrError::FromUTF8Error { pos }) => {
                    return Err(BoxParsingError::UTF8Error { pos });
                },
            };
            let ghost pre = compatible_brands@;
            compatible_brands.push(brand);
            remaining_size = match remaining_size {
                Some(n) => Some(n - 4),
                None => None,
            };
            proof {
                assert(strs_views(compatible_brands@) =~~= strs_views(pre) + seq![brand@]);
                assert forall|a: Seq<Seq<char>>, b: Seq<char>, c: Seq<Seq<char>>|
                    ((a + seq![b]) + c) =~= (a + (seq![b] + c)) by {}
            }
        }
        Ok(Ftyp { major_brand, minor_brand, compatible_brands })
    }

    pub fn get_short_name() -> (r: &'static str)
        ensures
            r@ == "ftyp"@,
    {
        "ftyp"
    }

    pub fn get_long_name() -> (r: &'static str)
        ensures
            r@ == "File Type Box"@,
    {
        "File Type Box"
    }

    /// The named field values of this box, in declaration order.
    #[verifier::loop_isolation(false)]
    pub fn get_inner_values(&self) -> (r: Vec<(&'static str, BoxValue)>)
        ensures
            r@.len() == 3,
            r@[0].0@ == "major_brand"@,
            r@[0].1 matches BoxValue::Utf8(s) && s@ == self.major_brand@,
            r@[1].0@ == "minor_brand"@ && r@[1].1 == BoxValue::UInt32(self.minor_brand),
            r@[2].0@ == "compatible_brands"@,
            r@[2].1 matches BoxValue::Utf8Arr(a) && strs_views(a@) == strs_views(
                self.compatible_brands@,
            ),
    {
        let mut values: Vec<(&'static str, BoxValue)> = Vec::new();
        values.push(("major_brand", BoxValue::Utf8(self.major_brand.clone())));
        values.push(("minor_brand", BoxValue::UInt32(self.minor_brand)));
        let mut brands: Vec<String> = Vec::new();
        let mut i: usize = 0;
        while i < self.compatible_brands.len()
            invariant
                i <= self.compatible_brands@.len(),
                strs_views(brands@) == strs_views(self.compatible_brands@.subrange(0, i as int)),
            decreases self.compatible_brands@.len() - i,
        {
            let ghost pre = brands@;
            let b = self.compatible_brands[i].clone();
            proof {
                assert(b == self.compatible_brands@[i as int]);
            }
            brands.push(b);
            i = i + 1;
            proof {
                assert(brands@.len() == i as int);
                assert(forall|j: int| 0 <= j < i as int ==> #[trigger] brands@[j]@
                    == self.compatible_brands@[j]@) by {
                    assert(forall|j: int| 0 <= j < i - 1 ==> strs_views(pre)[j] == #[trigger] pre[j]@);
                    assert(forall|j: int| 0 <= j < i - 1 ==> strs_views(
                        self.compatible_brands@.subrange(0, i - 1),
                    )[j] == #[trigger] self.compatible_brands@.subrange(0, i - 1)[j]@);
                }
                assert(strs_views(brands@) =~~= strs_views(
                    self.compatible_brands@.subrange(0, i as int),
                ));
            }
        }
        proof {
            assert(self.compatible_brands@.subrange(0, self.compatible_brands@.len() as int)
                =~= self.compatible_brands@);
        }
        values.push(("compatible_brands", BoxValue::Utf8Arr(brands)));
        values
    }

    /// `ftyp` contains fields, never further boxes.
    pub fn get_contained_boxes(&self) -> (r: Option<&Vec<crate::box_types::IsoBoxData>>)
        ensures
            r is None,
    {
        None
    }
}

} // verus!
