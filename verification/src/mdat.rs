//! Media Data Box (`mdat`): sample payload bytes, skipped by the inspector.

use vstd::prelude::*;
use crate::box_reader::BoxReader;
use crate::box_types::{BoxInfo, BoxValue};
use crate::error::{BoxParsingError, ErrKind, decoder_err, err_matches};
use crate::free::skip_end;

verus! {

pub struct Mdat {}

impl Mdat {
    pub fn parse(reader: &mut BoxReader, content_size: Option<u64>, info: &BoxInfo) -> (r: Result<
        Mdat,
        BoxParsingError,
    >)
        ensures
            final(reader).bytes() == old(reader).bytes(),
            r is Ok <==> skip_end(
                old(reader).bytes(),
                old(reader).posn(),
                match content_size {
                    Some(n) => Some(n as int),
                    None => None,
                },
            ) is Ok,
            match r {
                Ok(_) => skip_end(
                    old(reader).bytes(),
                    old(reader).posn(),
                    match content_size {
                        Some(n) => Some(n as int),
                        None => None,
                    },
                ) matches Ok(end) && final(reader).posn() == end,
                Err(e) => err_matches(e, ErrKind::EndOfStream) && decoder_err(e, *info),
            },
    {
        match content_size {
            Some(n) => {
                match reader.skip_bytes(n) {
                    Ok(_) => Ok(Mdat {}),
                    Err(e) => Err(e),
                }
            },
            None => {
                reader.skip_to_end();
                Ok(Mdat {})
            },
        }
    }

    pub fn get_short_name() -> (r: &'static str)
        ensures
            r@ == "mdat"@,
    {
        "mdat"
    }

    pub fn get_long_name() -> (r: &'static str)
        ensures
            r@ == "Media Data Box"@,
    {
        "Media Data Box"
    }

    /// `mdat` exposes no field values.
    pub fn get_inner_values(&self) -> (r: Vec<(&'static str, BoxValue)>)
        ensures
            r@.len() == 0,
    {
        Vec::new()
    }

    /// `mdat` contains no further boxes.
    pub fn get_contained_boxes(&self) -> (r: Option<&Vec<crate::box_types::IsoBoxData>>)
        ensures
            r is None,
    {
        None
    }
}

} // verus!
