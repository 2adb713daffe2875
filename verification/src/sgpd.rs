//! Sample Group Description Box (`sgpd`).
//!
//! The inspector does not yet decode this box's fields; it is not in the
//! decoder registry, so the engine treats an `sgpd` box as opaque. The type
//! is kept so callers can decode one by hand; doing so consumes nothing.

use vstd::prelude::*;
use crate::box_reader::BoxReader;
use crate::box_types::{BoxInfo, BoxValue};
use crate::error::BoxParsingError;

verus! {

pub struct Sgpd {}

impl Sgpd {
    pub fn parse(reader: &mut BoxReader, _content_size: Option<u64>, _info: &BoxInfo) -> (r: Result<
        Sgpd,
        BoxParsingError,
    >)
        ensures
            final(reader).bytes() == old(reader).bytes(),
            final(reader).posn() == old(reader).posn(),
            r is Ok,
    {
        Ok(Sgpd {})
    }

    pub fn get_short_name() -> (r: &'static str)
        ensures
            r@ == "sgpd"@,
    {
        "sgpd"
    }

    pub fn get_long_name() -> (r: &'static str)
        ensures
            r@ == "Sample Group Description Box"@,
    {
        "Sample Group Description Box"
    }

    /// `sgpd` decoding is not implemented; no field values are exposed.
    pub fn get_inner_values(&self) -> (r: Vec<(&'static str, BoxValue)>)
        ensures
            r@.len() == 0,
    {
        Vec::new()
    }

    /// `sgpd` contains no further boxes.
    pub fn get_contained_boxes(&self) -> (r: Option<&Vec<crate::box_types::IsoBoxData>>)
        ensures
            r is None,
    {
        None
    }
}

} // verus!
