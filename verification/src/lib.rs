//! Inspector for ISOBMFF (MP4) containers: parses the nested box structure of
//! an in-memory byte stream into a tree of (provenance, payload) nodes with
//! exact size and offset bookkeeping.

pub mod box_reader;
pub mod box_types;
pub mod bytes;
pub mod engine;
pub mod error;
pub mod filter;
pub mod free;
pub mod ftyp;
pub mod hdlr;
pub mod mdat;
pub mod mfhd;
pub mod moof;
pub mod moov;
pub mod mvhd;
pub mod pdin;
pub mod props;
pub mod saio;
pub mod saiz;
pub mod sgpd;
pub mod sidx;
pub mod styp;
pub mod subs;
pub mod text;
pub mod tfdt;
pub mod tfhd;
pub mod traf;
pub mod trun;

use vstd::prelude::*;
use crate::box_reader::BoxReader;
use crate::box_types::IsoBoxData;
use crate::engine::{level_end, nodes_chain, parse_children};
use crate::error::{BoxParsingError, err_matches};

verus! {

/// Parses a whole ISOBMFF stream into its ordered top-level box sequence.
///
/// On success the returned nodes tile the entire stream: the first starts
/// at position `0`, each next one at the previous one's end, and the last
/// ends exactly at the end of the stream. Every node's provenance and
/// payload are pinned against the bytes by [`nodes_chain`]. The first
/// error aborts the parse; [`level_end`] says exactly which input streams
/// parse and which error is reported otherwise.
pub fn parse_isobmff(data: Vec<u8>) -> (r: Result<Vec<IsoBoxData>, BoxParsingError>)
    ensures
        r is Ok <==> level_end(data@, 0, None) is Ok,
        match r {
            Ok(nodes) => {
                &&& level_end(data@, 0, None::<int>) matches Ok(end) && end == data@.len()
                &&& nodes_chain(data@, nodes@, 0, data@.len() as int, None, true)
            },
            Err(e) => {
                &&& level_end(data@, 0, None::<int>) matches Err(k) && err_matches(e, k)
                &&& crate::engine::err_ancestry_ok(e, data@, None)
            },
        },
{
    let mut box_reader = BoxReader::create(data);
    let r = parse_children(&mut box_reader, None, None);
    proof {
        if r is Ok {
            crate::engine::lemma_level_none_ends_at_stream_end(box_reader.bytes(), 0);
        }
    }
    r
}

} // verus!
