//! Track Fragment Box (`traf`): a pure container of further boxes.

use vstd::prelude::*;
use crate::box_reader::BoxReader;
use crate::box_types::{BoxInfo, BoxValue, IsoBoxData};
use crate::engine::{level_end, nodes_chain, opt_int, parse_children};
use crate::error::{BoxParsingError, err_matches};

verus! {

pub struct Traf {
    pub content: Vec<IsoBoxData>,
}

impl Traf {
    /// Parses the contained child boxes by delegating to the engine with
    /// this box's content range as the budget.
    pub fn parse(reader: &mut BoxReader, content_size: Option<u64>, info: &BoxInfo) -> (r: Result<
        Traf,
        BoxParsingError,
    >)
        requires
            old(reader).posn() <= old(reader).bytes().len(),
        ensures
            final(reader).bytes() == old(reader).bytes(),
            r is Ok <==> level_end(old(reader).bytes(), old(reader).posn(), opt_int(content_size))
                is Ok,
            match r {
                Ok(m) => {
                    &&& level_end(old(reader).bytes(), old(reader).posn(), opt_int(content_size))
                        matches Ok(end) && final(reader).posn() == end
                    &&& nodes_chain(
                        old(reader).bytes(),
                        m.content@,
                        old(reader).posn(),
                        final(reader).posn(),
                        Some(*info),
                        content_size is None,
                    )
                },
                Err(e) => {
                    &&& level_end(old(reader).bytes(), old(reader).posn(), opt_int(content_size))
                        matches Err(k) && err_matches(e, k)
                    &&& crate::engine::err_ancestry_ok(e, old(reader).bytes(), Some(*info))
                },
            },
        decreases reader.bytes().len() - reader.posn(), 3int,
    {
        match parse_children(reader, content_size, Some(info)) {
            Ok(content) => Ok(Traf { content }),
            Err(e) => Err(e),
        }
    }

    pub fn get_short_name() -> (r: &'static str)
        ensures
            r@ == "traf"@,
    {
        "traf"
    }

    pub fn get_long_name() -> (r: &'static str)
        ensures
            r@ == "Track Fragment Box"@,
    {
        "Track Fragment Box"
    }

    /// A container exposes no field values of its own.
    pub fn get_inner_values(&self) -> (r: Vec<(&'static str, BoxValue)>)
        ensures
            r@.len() == 0,
    {
        Vec::new()
    }

    /// Borrowed view of the child boxes, in on-disk order.
    pub fn get_contained_boxes(&self) -> (r: Option<&Vec<IsoBoxData>>)
        ensures
            r matches Some(c) && *c == self.content,
    {
        Some(&self.content)
    }

    /// Transfers the child boxes out, in on-disk order.
    pub fn get_inner_boxes(self) -> (r: Vec<IsoBoxData>)
        ensures
            r == self.content,
    {
        self.content
    }
}

} // verus!
