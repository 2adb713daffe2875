//! Free Space Box (`free`): content is meaningless and skipped verbatim.

use vstd::prelude::*;
use crate::box_reader::BoxReader;
use crate::box_types::{BoxInfo, BoxValue};
use crate::error::{BoxParsingError, ErrKind, decoder_err, err_matches};

verus! {

pub struct Free {}

/// Where skipping a payload of `content` bytes starting at `p` leaves the
/// cursor; a `None` content length means "to the end of the stream".
pub open spec fn skip_end(s: Seq<u8>, p: int, content: Option<int>) -> Result<int, ErrKind> {
    match content {
        Some(n) => if p + n <= s.len() {
            Ok(p + n)
        } else {
            Err(ErrKind::EndOfStream)
        },
        None => Ok(s.len() as int),
    }
}

impl Free {
    pub fn parse(reader: &mut BoxReader, content_size: Option<u64>, info: &BoxInfo) -> (r: Result<
        Free,
        BoxParsingError,
    >)
        ensures
            final(reader).bytes() == old(reader).bytes(),
            r is Ok <==> skip_end(
                old(reader).bytes(),
                old(reader).posn(),
                match content_size {
                    Some(n) => Some(n as int),
                    None => None,
                },
            ) is Ok,
            match r {
                Ok(_) => skip_end(
                    old(reader).bytes(),
                    old(reader).posn(),
                    match content_size {
                        Some(n) => Some(n as int),
                        None => None,
                    },
                ) matches Ok(end) && final(reader).posn() == end,
                Err(e) => err_matches(e, ErrKind::EndOfStream) && decoder_err(e, *info),
            },
    {
        match content_size {
            Some(n) => {
                match reader.skip_bytes(n) {
                    Ok(_) => Ok(Free {}),
                    Err(e) => Err(e),
                }
            },
            None => {
                reader.skip_to_end();
                Ok(Free {})
            },
        }
    }

    pub fn get_short_name() -> (r: &'static str)
        ensures
            r@ == "free"@,
    {
        "free"
    }

    pub fn get_long_name() -> (r: &'static str)
        ensures
            r@ == "Free Space Box"@,
    {
        "Free Space Box"
    }

    /// `free` exposes no field values.
    pub fn get_inner_values(&self) -> (r: Vec<(&'static str, BoxValue)>)
        ensures
            r@.len() == 0,
    {
        Vec::new()
    }

    /// `free` contains no further boxes.
    pub fn get_contained_boxes(&self) -> (r: Option<&Vec<crate::box_types::IsoBoxData>>)
        ensures
            r is None,
    {
        None
    }
}

} // verus!
