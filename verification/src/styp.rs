//! Segment Type Box (`styp`): same layout as `ftyp`.

use vstd::prelude::*;
use crate::box_reader::BoxReader;
use crate::box_types::{BoxInfo, BoxValue};
use crate::error::{BoxParsingError, decoder_err, err_matches};
use crate::ftyp::{Ftyp, ftyp_parsed, strs_views};

verus! {

pub struct Styp {
    pub major_brand: String,
    pub minor_brand: u32,
    pub compatible_brands: Vec<String>,
}

/// The fields of `f` are exactly the ghost parts `g`.
pub open spec fn styp_matches(f: Styp, g: (Seq<char>, u32, Seq<Seq<char>>)) -> bool {
    &&& f.major_brand@ == g.0
    &&& f.minor_brand == g.1
    &&& strs_views(f.compatible_brands@) == g.2
}

impl Styp {
    pub fn parse(reader: &mut BoxReader, content_size: Option<u64>, info: &BoxInfo) -> (r: Result<
        Styp,
        BoxParsingError,
    >)
        ensures
            final(reader).bytes() == old(reader).bytes(),
            r is Ok <==> ftyp_parsed(
                old(reader).bytes(),
                old(reader).posn(),
                match content_size {
                    Some(n) => Some(n as int),
                    None => None,
                },
            ) is Ok,
            match r {
                Ok(f) => ftyp_parsed(
                    old(reader).bytes(),
                    old(reader).posn(),
                    match content_size {
                        Some(n) => Some(n as int),
                        None => None,
                    },
                ) matches Ok((g, end)) && styp_matches(f, g) && final(reader).posn() == end,
                Err(e) => {
                    &&& ftyp_parsed(
                        old(reader).bytes(),
                        old(reader).posn(),
                        match content_size {
                            Some(n) => Some(n as int),
                            None => None,
                        },
                    ) matches Err(k) && err_matches(e, k)
                    &&& decoder_err(e, *info)
                },
            },
    {
        let ftyp_equiv = match Ftyp::parse(reader, content_size, info) {
            Ok(f) => f,
            Err(e) => {
                return Err(e);
            },
        };
        Ok(
            Styp {
                major_brand: ftyp_equiv.major_brand,
                minor_brand: ftyp_equiv.minor_brand,
                compatible_brands: ftyp_equiv.compatible_brands,
            },
        )
    }

    pub fn get_short_name() -> (r: &'static str)
        ensures
            r@ == "styp"@,
    {
        "styp"
    }

    pub fn get_long_name() -> (r: &'static str)
        ensures
            r@ == "Segment Type Box"@,
    {
        "Segment Type Box"
    }

    /// The named field values of this box, in declaration order.
    #[verifier::loop_isolation(false)]
    pub fn get_inner_values(&self) -> (r: Vec<(&'static str, BoxValue)>)
        ensures
            r@.len() == 3,
            r@[0].0@ == "major_brand"@,
            r@[0].1 matches BoxValue::Utf8(s) && s@ == self.major_brand@,
            r@[1].0@ == "minor_brand"@ && r@[1].1 == BoxValue::UInt32(self.minor_brand),
            r@[2].0@ == "compatible_brands"@,
            r@[2].1 matches BoxValue::Utf8Arr(a) && strs_views(a@) == strs_views(
                self.compatible_brands@,
            ),
    {
        let mut values: Vec<(&'static str, BoxValue)> = Vec::new();
        values.push(("major_brand", BoxValue::Utf8(self.major_brand.clone())));
        values.push(("minor_brand", BoxValue::UInt32(self.minor_brand)));
        let mut brands: Vec<String> = Vec::new();
        let mut i: usize = 0;
        while i < self.compatible_brands.len()
            invariant
                i <= self.compatible_brands@.len(),
                strs_views(brands@) == strs_views(self.compatible_brands@.subrange(0, i as int)),
            decreases self.compatible_brands@.len() - i,
        {
            let ghost pre = brands@;
            let b = self.compatible_brands[i].clone();
            proof {
                assert(b == self.compatible_brands@[i as int]);
            }
            brands.push(b);
            i = i + 1;
            proof {
                assert(brands@.len() == i as int);
                assert(forall|j: int| 0 <= j < i as int ==> #[trigger] brands@[j]@
                    == self.compatible_brands@[j]@) by {
                    assert(forall|j: int| 0 <= j < i - 1 ==> strs_views(pre)[j] == #[trigger] pre[j]@);
                    assert(forall|j: int| 0 <= j < i - 1 ==> strs_views(
                        self.compatible_brands@.subrange(0, i - 1),
                    )[j] == #[trigger] self.compatible_brands@.subrange(0, i - 1)[j]@);
                }
                assert(strs_views(brands@) =~~= strs_views(
                    self.compatible_brands@.subrange(0, i as int),
                ));
            }
        }
        proof {
            assert(self.compatible_brands@.subrange(0, self.compatible_brands@.len() as int)
                =~= self.compatible_brands@);
        }
        values.push(("compatible_brands", BoxValue::Utf8Arr(brands)));
        values
    }

    /// `styp` contains fields, never further boxes.
    pub fn get_contained_boxes(&self) -> (r: Option<&Vec<crate::box_types::IsoBoxData>>)
        ensures
            r is None,
    {
        None
    }
}

} // verus!
