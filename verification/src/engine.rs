//! The box-tree parsing engine: reads box headers, validates size
//! invariants, dispatches payloads to the registered decoder for the type
//! code, verifies exact byte consumption, and assembles the ordered
//! sibling list of each nesting level.
//!
//! The ghost functions [`level_end`] and [`payload_end`] mirror the whole
//! engine over the raw byte sequence: they say, for every stream, whether
//! parsing succeeds, where it ends, and which failure it reports
//! otherwise. The predicates [`node_ok`] and [`nodes_chain`] pin every
//! field of a returned tree against the bytes it was decoded from.

use vstd::prelude::*;
use vstd::utf8::{valid_utf8, decode_utf8};
use crate::box_reader::BoxReader;
use crate::box_types::{BoxData, BoxInfo, IsoBoxData};
use crate::bytes::{be32, be64};
use crate::error::{BoxParsingError, ErrKind, err_matches};
use crate::free::skip_end;
use crate::ftyp::{ftyp_parsed, ftyp_matches};
use crate::hdlr::{hdlr_end, hdlr_ok};
use crate::mfhd::{mfhd_end, mfhd_ok};
use crate::mvhd::{mvhd_end, mvhd_ok};
use crate::pdin::{pdin_end, pdin_ok};
use crate::saio::{saio_parsed, saio_matches};
use crate::saiz::{saiz_parsed, saiz_matches};
use crate::styp::styp_matches;
use crate::subs::{subs_parsed, subs_matches};
use crate::tfdt::{tfdt_end, tfdt_ok};
use crate::tfhd::{tfhd_end, tfhd_ok};
use crate::trun::{trun_parsed, trun_matches};

verus! {

/// Whether the 4-byte type code `c` is the ASCII code `a b c2 d`.
pub open spec fn code_is(c: Seq<u8>, a: u8, b: u8, c2: u8, d: u8) -> bool {
    c.len() == 4 && c[0] == a && c[1] == b && c[2] == c2 && c[3] == d
}

/// The content budget handed to a decoder, as a ghost integer.
pub open spec fn opt_int(o: Option<u64>) -> Option<int> {
    match o {
        Some(n) => Some(n as int),
        None => None,
    }
}

/// Where the decoder registered for `code` leaves the cursor when invoked
/// at `cs` with `content` budget bytes (`None`: the box runs to the end of
/// the stream), or the failure it reports. A code with no registered
/// decoder is skipped over its whole content.
pub open spec fn payload_end(s: Seq<u8>, code: Seq<u8>, cs: int, content: Option<int>) -> Result<
    int,
    ErrKind,
>
    decreases s.len() - cs, 1int,
{
    if code_is(code, 0x66, 0x72, 0x65, 0x65) {  // free
        skip_end(s, cs, content)
    } else if code_is(code, 0x66, 0x74, 0x79, 0x70) {  // ftyp
        match ftyp_parsed(s, cs, content) {
            Ok((g, e)) => Ok(e),
            Err(k) => Err(k),
        }
    } else if code_is(code, 0x68, 0x64, 0x6C, 0x72) {  // hdlr
        hdlr_end(s, cs, content)
    } else if code_is(code, 0x6D, 0x64, 0x61, 0x74) {  // mdat
        skip_end(s, cs, content)
    } else if code_is(code, 0x6D, 0x66, 0x68, 0x64) {  // mfhd
        mfhd_end(s, cs)
    } else if code_is(code, 0x6D, 0x6F, 0x6F, 0x66) {  // moof
        level_end(s, cs, content)
    } else if code_is(code, 0x6D, 0x6F, 0x6F, 0x76) {  // moov
        level_end(s, cs, content)
    } else if code_is(code, 0x6D, 0x76, 0x68, 0x64) {  // mvhd
        mvhd_end(s, cs)
    } else if code_is(code, 0x70, 0x64, 0x69, 0x6E) {  // pdin
        pdin_end(s, cs)
    } else if code_is(code, 0x73, 0x61, 0x69, 0x6F) {  // saio
        match saio_parsed(s, cs) {
            Ok((g, e)) => Ok(e),
            Err(k) => Err(k),
        }
    } else if code_is(code, 0x73, 0x61, 0x69, 0x7A) {  // saiz
        match saiz_parsed(s, cs) {
            Ok((g, e)) => Ok(e),
            Err(k) => Err(k),
        }
    } else if code_is(code, 0x73, 0x74, 0x79, 0x70) {  // styp
        match ftyp_parsed(s, cs, content) {
            Ok((g, e)) => Ok(e),
            Err(k) => Err(k),
        }
    } else if code_is(code, 0x73, 0x75, 0x62, 0x73) {  // subs
        match subs_parsed(s, cs) {
            Ok((g, e)) => Ok(e),
            Err(k) => Err(k),
        }
    } else if code_is(code, 0x74, 0x66, 0x64, 0x74) {  // tfdt
        tfdt_end(s, cs)
    } else if code_is(code, 0x74, 0x66, 0x68, 0x64) {  // tfhd
        tfhd_end(s, cs)
    } else if code_is(code, 0x74, 0x72, 0x61, 0x66) {  // traf
        level_end(s, cs, content)
    } else if code_is(code, 0x74, 0x72, 0x75, 0x6E) {  // trun
        match trun_parsed(s, cs) {
            Ok((g, e)) => Ok(e),
            Err(k) => Err(k),
        }
    } else {
        skip_end(s, cs, content)
    }
}

/// Where parsing one level of boxes that starts at `p` with the given byte
/// budget (`None`: until the stream is exhausted) leaves the cursor, or
/// the failure it reports. This mirrors the engine exactly: header
/// reading, size resolution, the header-fits check, the budget check,
/// payload decoding, and the exact-consumption check, box after box.
pub open spec fn level_end(s: Seq<u8>, p: int, budget: Option<int>) -> Result<int, ErrKind>
    decreases s.len() - p, 0int,
{
    let done = match budget {
        Some(b) => b == 0,
        None => p >= s.len(),
    };
    if done {
        Ok(p)
    } else if (match budget {
        Some(b) => 0 < b < 4,
        None => false,
    }) {
        Err(ErrKind::TooSmall { offset: p, size: budget->Some_0, code: None })
    } else if p + 8 > s.len() {
        Err(ErrKind::EndOfStream)
    } else {
        let size32 = be32(s, p);
        let code = s.subrange(p + 4, p + 8);
        if !valid_utf8(code) {
            Err(ErrKind::InvalidText)
        } else if size32 == 1 && p + 16 > s.len() {
            Err(ErrKind::EndOfStream)
        } else {
            let hdr0: int = if size32 == 1 {
                16
            } else {
                8
            };
            let rsize: int = if size32 == 1 {
                be64(s, p + 8)
            } else if size32 == 0 {
                match budget {
                    Some(b) => b,
                    None => s.len() - p,
                }
            } else {
                size32
            };
            let is_uuid = code_is(code, 0x75, 0x75, 0x69, 0x64);
            if is_uuid && p + hdr0 + 16 > s.len() {
                Err(ErrKind::EndOfStream)
            } else {
                let hdr: int = hdr0 + if is_uuid {
                    16int
                } else {
                    0int
                };
                if rsize < hdr {
                    Err(ErrKind::TooSmall { offset: p, size: rsize, code: Some(decode_utf8(code)) })
                } else if (match budget {
                    Some(b) => rsize > b,
                    None => false,
                }) {
                    Err(
                        ErrKind::TooLarge {
                            offset: p,
                            size: rsize,
                            code: decode_utf8(code),
                            remaining: budget->Some_0,
                        },
                    )
                } else {
                    let content: Option<int> = if size32 == 0 && budget is None {
                        None
                    } else {
                        Some(rsize - hdr)
                    };
                    match payload_end(s, code, p + hdr, content) {
                        Err(k) => Err(k),
                        Ok(dec_end) => {
                            let expected = p + rsize;
                            if dec_end < expected {
                                Err(ErrKind::ReadShort { expected_end: expected, actual_end: dec_end })
                            } else if dec_end > expected {
                                Err(ErrKind::ReadPastEnd { expected_end: expected, actual_end: dec_end })
                            } else if expected <= s.len() {
                                level_end(
                                    s,
                                    expected,
                                    match budget {
                                        Some(b) => Some(b - rsize),
                                        None => None,
                                    },
                                )
                            } else {
                                Err(ErrKind::ReadShort { expected_end: expected, actual_end: dec_end })
                            }
                        },
                    }
                }
            }
        }
    }
}

/// A level parsed without a byte budget, from a position inside the
/// stream, succeeds only by consuming the stream to its very end.
pub proof fn lemma_level_none_ends_at_stream_end(s: Seq<u8>, p: int)
    requires
        0 <= p <= s.len(),
        level_end(s, p, None) is Ok,
    ensures
        level_end(s, p, None::<int>) matches Ok(end) && end == s.len(),
    decreases s.len() - p,
{
    if p >= s.len() {
    } else {
        let size32 = be32(s, p);
        let code = s.subrange(p + 4, p + 8);
        let hdr0: int = if size32 == 1 {
            16
        } else {
            8
        };
        let rsize: int = if size32 == 1 {
            be64(s, p + 8)
        } else if size32 == 0 {
            s.len() - p
        } else {
            size32
        };
        let is_uuid = code_is(code, 0x75, 0x75, 0x69, 0x64);
        let hdr: int = hdr0 + if is_uuid {
            16int
        } else {
            0int
        };
        let content: Option<int> = if size32 == 0 {
            None
        } else {
            Some(rsize - hdr)
        };
        match payload_end(s, code, p + hdr, content) {
            Err(k) => {
                assert(false);
            },
            Ok(dec_end) => {
                let expected = p + rsize;
                assert(dec_end == expected && expected <= s.len());
                lemma_level_none_ends_at_stream_end(s, expected);
            },
        }
    }
}

/// Whether a node's stored parent link is the enclosing box's provenance.
pub open spec fn parent_link_ok(link: Option<Box<BoxInfo>>, parent: Option<BoxInfo>) -> bool {
    match parent {
        None => link is None,
        Some(p) => link matches Some(b) && *b == p,
    }
}

/// The provenance fields of `info` are exactly what the box header at
/// `info.offset` encodes: the resolved size, the decoded type code, and
/// the extended type for `uuid` boxes.
pub open spec fn info_header_ok(info: BoxInfo, s: Seq<u8>) -> bool {
    let o = info.offset as int;
    let size32 = be32(s, o);
    let code = s.subrange(o + 4, o + 8);
    let hdr0: int = if size32 == 1 {
        16
    } else {
        8
    };
    let is_uuid = code_is(code, 0x75, 0x75, 0x69, 0x64);
    let hdr: int = hdr0 + if is_uuid {
        16int
    } else {
        0int
    };
    &&& o + 8 <= s.len()
    &&& valid_utf8(code)
    &&& info.short_name@ == decode_utf8(code)
    &&& size32 == 1 ==> o + 16 <= s.len() && info.size as int == be64(s, o + 8)
    &&& (size32 != 0 && size32 != 1) ==> info.size as int == size32
    &&& is_uuid ==> o + hdr <= s.len() && (info.extended_type matches Some(a) && a@.len() == 16
        && (forall|i: int| 0 <= i < 16 ==> a@[i] == s[o + hdr0 + i]))
    &&& !is_uuid ==> info.extended_type is None
    &&& info.size >= hdr
}

/// The ancestry reachable from `link` is made of header-accurate boxes
/// down to the enclosing level's own parent chain `top`.
pub open spec fn ancestry_extends(
    link: Option<Box<BoxInfo>>,
    s: Seq<u8>,
    top: Option<BoxInfo>,
) -> bool
    decreases link,
{
    ||| parent_link_ok(link, top)
    ||| (link matches Some(b) && info_header_ok(*b, s) && ancestry_extends(b.parent, s, top))
}

/// The provenance carried by an error is either the enclosing level's own
/// parent, or a header-accurate box whose ancestry extends to it.
pub open spec fn info_extends(info: BoxInfo, s: Seq<u8>, top: Option<BoxInfo>) -> bool {
    ||| (top matches Some(t) && info == t)
    ||| (info_header_ok(info, s) && ancestry_extends(info.parent, s, top))
}

/// Every provenance value carried by the error is header-accurate against
/// the stream, and its parent chain runs back to the level's own parent
/// chain `top` (the error may have bubbled up from a nested level, so the
/// chain may pass through the enclosing boxes first).
pub open spec fn err_ancestry_ok(e: BoxParsingError, s: Seq<u8>, top: Option<BoxInfo>) -> bool {
    match e {
        BoxParsingError::IOError { .. } => true,
        BoxParsingError::UTF8Error { .. } => true,
        BoxParsingError::InvalidVersion { info, .. } => info_extends(info, s, top),
        BoxParsingError::BoxTooSmall { parent, .. } => ancestry_extends(parent, s, top),
        BoxParsingError::BoxTooLarge { info, .. } => info_extends(info, s, top),
        BoxParsingError::ReadTooMuch { info, .. } => info_extends(info, s, top),
        BoxParsingError::ReadNotEnough { info, .. } => info_extends(info, s, top),
    }
}

/// An ancestry that ends at a box `i` whose own parent link is `top`
/// extends through `i` to `top`.
proof fn lemma_ancestry_through(
    link: Option<Box<BoxInfo>>,
    s: Seq<u8>,
    i: BoxInfo,
    top: Option<BoxInfo>,
)
    requires
        ancestry_extends(link, s, Some(i)),
        info_header_ok(i, s),
        parent_link_ok(i.parent, top),
    ensures
        ancestry_extends(link, s, top),
    decreases link,
{
    if parent_link_ok(link, Some(i)) {
        if let Some(b) = link {
            assert(*b == i);
            assert(parent_link_ok(b.parent, top));
            assert(ancestry_extends(b.parent, s, top));
        }
    } else {
        if let Some(b) = link {
            lemma_ancestry_through(b.parent, s, i, top);
        }
    }
}

/// Lifts an error's ancestry claim from a nested level, whose parent is
/// the box `i`, to the enclosing level.
proof fn lemma_err_ancestry_through(
    e: BoxParsingError,
    s: Seq<u8>,
    i: BoxInfo,
    top: Option<BoxInfo>,
)
    requires
        err_ancestry_ok(e, s, Some(i)),
        info_header_ok(i, s),
        parent_link_ok(i.parent, top),
    ensures
        err_ancestry_ok(e, s, top),
{
    match e {
        BoxParsingError::InvalidVersion { info, .. } => {
            lemma_info_extends_through(info, s, i, top);
        },
        BoxParsingError::BoxTooSmall { parent, .. } => {
            lemma_ancestry_through(parent, s, i, top);
        },
        BoxParsingError::BoxTooLarge { info, .. } => {
            lemma_info_extends_through(info, s, i, top);
        },
        BoxParsingError::ReadTooMuch { info, .. } => {
            lemma_info_extends_through(info, s, i, top);
        },
        BoxParsingError::ReadNotEnough { info, .. } => {
            lemma_info_extends_through(info, s, i, top);
        },
        _ => {},
    }
}

/// As [`lemma_ancestry_through`], for a carried provenance value.
proof fn lemma_info_extends_through(i2: BoxInfo, s: Seq<u8>, i: BoxInfo, top: Option<BoxInfo>)
    requires
        info_extends(i2, s, Some(i)),
        info_header_ok(i, s),
        parent_link_ok(i.parent, top),
    ensures
        info_extends(i2, s, top),
{
    if i2 == i {
    } else {
        lemma_ancestry_through(i2.parent, s, i, top);
    }
}

/// Every field of one parsed node is exactly what the bytes at
/// `node.0.offset` encode: the provenance fields come from the header, and
/// the payload is the value the registered decoder returns on the box's
/// content. `run_to_end` says that this box's wire size field was `0` in a
/// level without a byte budget, so its decoder was told to run to the end
/// of the stream.
pub open spec fn node_ok(s: Seq<u8>, node: (BoxInfo, Option<BoxData>), run_to_end: bool) -> bool
    decreases node,
{
    let info = node.0;
    let o = info.offset as int;
    let size32 = be32(s, o);
    let code = s.subrange(o + 4, o + 8);
    let hdr0: int = if size32 == 1 {
        16
    } else {
        8
    };
    let is_uuid = code_is(code, 0x75, 0x75, 0x69, 0x64);
    let hdr: int = hdr0 + if is_uuid {
        16int
    } else {
        0int
    };
    let cs = o + hdr;
    let content: Option<int> = if run_to_end {
        None
    } else {
        Some(info.size - hdr)
    };
    &&& info_header_ok(info, s)
    &&& run_to_end ==> o + info.size == s.len()
    &&& payload_data_ok(s, code, cs, content, node.1, info)
}

/// The decoded payload `data` is exactly what the decoder registered for
/// `code` returns on the content at `cs`; an unregistered code carries no
/// payload. For a container, the children chain over its content range
/// with this box's provenance as their parent.
pub open spec fn payload_data_ok(
    s: Seq<u8>,
    code: Seq<u8>,
    cs: int,
    content: Option<int>,
    data: Option<BoxData>,
    info: BoxInfo,
) -> bool
    decreases data,
{
    if code_is(code, 0x66, 0x72, 0x65, 0x65) {
        data matches Some(BoxData::Free(_))
    } else if code_is(code, 0x66, 0x74, 0x79, 0x70) {
        data matches Some(BoxData::Ftyp(f)) && (ftyp_parsed(s, cs, content) matches Ok((g, e))
            && ftyp_matches(f, g))
    } else if code_is(code, 0x68, 0x64, 0x6C, 0x72) {
        data matches Some(BoxData::Hdlr(h)) && hdlr_ok(h, s, cs, content)
    } else if code_is(code, 0x6D, 0x64, 0x61, 0x74) {
        data matches Some(BoxData::Mdat(_))
    } else if code_is(code, 0x6D, 0x66, 0x68, 0x64) {
        data matches Some(BoxData::Mfhd(m)) && mfhd_ok(m, s, cs)
    } else if code_is(code, 0x6D, 0x6F, 0x6F, 0x66) {
        data matches Some(BoxData::Moof(m)) && (level_end(s, cs, content) matches Ok(e2)
            && nodes_chain(s, m.content@, cs, e2, Some(info), content is None))
    } else if code_is(code, 0x6D, 0x6F, 0x6F, 0x76) {
        data matches Some(BoxData::Moov(m)) && (level_end(s, cs, content) matches Ok(e2)
            && nodes_chain(s, m.content@, cs, e2, Some(info), content is None))
    } else if code_is(code, 0x6D, 0x76, 0x68, 0x64) {
        data matches Some(BoxData::Mvhd(m)) && mvhd_ok(m, s, cs)
    } else if code_is(code, 0x70, 0x64, 0x69, 0x6E) {
        data matches Some(BoxData::Pdin(b)) && pdin_ok(b, s, cs)
    } else if code_is(code, 0x73, 0x61, 0x69, 0x6F) {
        data matches Some(BoxData::Saio(b)) && (saio_parsed(s, cs) matches Ok((g, e))
            && saio_matches(b, g))
    } else if code_is(code, 0x73, 0x61, 0x69, 0x7A) {
        data matches Some(BoxData::Saiz(b)) && (saiz_parsed(s, cs) matches Ok((g, e))
            && saiz_matches(b, g))
    } else if code_is(code, 0x73, 0x74, 0x79, 0x70) {
        data matches Some(BoxData::Styp(b)) && (ftyp_parsed(s, cs, content) matches Ok((g, e))
            && styp_matches(b, g))
    } else if code_is(code, 0x73, 0x75, 0x62, 0x73) {
        data matches Some(BoxData::Subs(b)) && (subs_parsed(s, cs) matches Ok((g, e))
            && subs_matches(b, g))
    } else if code_is(code, 0x74, 0x66, 0x64, 0x74) {
        data matches Some(BoxData::Tfdt(b)) && tfdt_ok(b, s, cs)
    } else if code_is(code, 0x74, 0x66, 0x68, 0x64) {
        data matches Some(BoxData::Tfhd(b)) && tfhd_ok(b, s, cs)
    } else if code_is(code, 0x74, 0x72, 0x61, 0x66) {
        data matches Some(BoxData::Traf(m)) && (level_end(s, cs, content) matches Ok(e2)
            && nodes_chain(s, m.content@, cs, e2, Some(info), content is None))
    } else if code_is(code, 0x74, 0x72, 0x75, 0x6E) {
        data matches Some(BoxData::Trun(b)) && (trun_parsed(s, cs) matches Ok((g, e))
            && trun_matches(b, g))
    } else {
        data is None
    }
}

/// The nodes are the boxes of one level: the first starts at `p`, each
/// next one at the previous one's end, the last ends at `end`; each node
/// satisfies [`node_ok`] and carries `parent` as its parent link.
/// `budget_none` says the level had no byte budget, so a box whose wire
/// size field is `0` runs to the end of the stream.
pub open spec fn nodes_chain(
    s: Seq<u8>,
    nodes: Seq<IsoBoxData>,
    p: int,
    end: int,
    parent: Option<BoxInfo>,
    budget_none: bool,
) -> bool
    decreases nodes,
{
    if nodes.len() == 0 {
        p == end
    } else {
        let node = nodes[0];
        &&& node.0.offset as int == p
        &&& node_ok(s, node, budget_none && be32(s, p) == 0)
        &&& parent_link_ok(node.0.parent, parent)
        &&& nodes_chain(s, nodes.subrange(1, nodes.len() as int), p + node.0.size, end, parent, budget_none)
    }
}

/// Appending one well-formed node that starts where the chain ends
/// extends the chain by that node's span.
proof fn lemma_chain_snoc(
    s: Seq<u8>,
    nodes: Seq<IsoBoxData>,
    p: int,
    end: int,
    parent: Option<BoxInfo>,
    budget_none: bool,
    node: IsoBoxData,
)
    requires
        nodes_chain(s, nodes, p, end, parent, budget_none),
        node.0.offset as int == end,
        node_ok(s, node, budget_none && be32(s, end) == 0),
        parent_link_ok(node.0.parent, parent),
    ensures
        nodes_chain(s, nodes.push(node), p, end + node.0.size, parent, budget_none),
    decreases nodes.len(),
{
    let pushed = nodes.push(node);
    if nodes.len() == 0 {
        assert(pushed[0] == node);
        assert(pushed.subrange(1, pushed.len() as int) =~= Seq::<IsoBoxData>::empty());
        assert(nodes_chain(
            s,
            pushed.subrange(1, pushed.len() as int),
            end + node.0.size,
            end + node.0.size,
            parent,
            budget_none,
        ));
        assert(nodes_chain(s, pushed, p, end + node.0.size, parent, budget_none));
    } else {
        lemma_chain_snoc(
            s,
            nodes.subrange(1, nodes.len() as int),
            p + nodes[0].0.size,
            end,
            parent,
            budget_none,
            node,
        );
        assert(pushed[0] == nodes[0]);
        assert(pushed.subrange(1, pushed.len() as int) =~= nodes.subrange(
            1,
            nodes.len() as int,
        ).push(node));
        assert(nodes_chain(s, pushed, p, end + node.0.size, parent, budget_none));
    }
}

/// The provenance value that `parent` refers to, if any.
pub open spec fn parent_model(parent: Option<&BoxInfo>) -> Option<BoxInfo> {
    match parent {
        Some(p) => Some(*p),
        None => None,
    }
}

/// An owned copy of the parent provenance for a new node or error value.
fn clone_parent(parent: Option<&BoxInfo>) -> (r: Option<Box<BoxInfo>>)
    ensures
        parent_link_ok(r, parent_model(parent)),
{
    match parent {
        Some(p) => Some(Box::new(p.clone())),
        None => None,
    }
}

/// Dispatches a box's content to the decoder registered for its type
/// code, or skips the content when no decoder is registered.
#[verifier::rlimit(100)]
fn parse_payload(
    reader: &mut BoxReader,
    c0: u8,
    c1: u8,
    c2: u8,
    c3: u8,
    content_size: Option<u64>,
    info: &BoxInfo,
) -> (r: Result<Option<BoxData>, BoxParsingError>)
    requires
        old(reader).posn() <= old(reader).bytes().len(),
    ensures
        final(reader).bytes() == old(reader).bytes(),
        match r {
            Ok(data) => {
                &&& payload_end(
                    old(reader).bytes(),
                    seq![c0, c1, c2, c3],
                    old(reader).posn(),
                    opt_int(content_size),
                ) matches Ok(e2) && final(reader).posn() == e2
                &&& payload_data_ok(
                    old(reader).bytes(),
                    seq![c0, c1, c2, c3],
                    old(reader).posn(),
                    opt_int(content_size),
                    data,
                    *info,
                )
            },
            Err(e) => {
                &&& payload_end(
                    old(reader).bytes(),
                    seq![c0, c1, c2, c3],
                    old(reader).posn(),
                    opt_int(content_size),
                ) matches Err(k) && err_matches(e, k)
                &&& err_ancestry_ok(e, old(reader).bytes(), Some(*info))
            },
        },
    decreases reader.bytes().len() - reader.posn(), 4int,
{
    let ghost s = old(reader).bytes();
    let ghost code = seq![c0, c1, c2, c3];
    let ghost cs = old(reader).posn();
    let ghost content = opt_int(content_size);
    let is_free = c0 == 0x66 && c1 == 0x72 && c2 == 0x65 && c3 == 0x65;
    let is_ftyp = c0 == 0x66 && c1 == 0x74 && c2 == 0x79 && c3 == 0x70;
    let is_hdlr = c0 == 0x68 && c1 == 0x64 && c2 == 0x6C && c3 == 0x72;
    let is_mdat = c0 == 0x6D && c1 == 0x64 && c2 == 0x61 && c3 == 0x74;
    let is_mfhd = c0 == 0x6D && c1 == 0x66 && c2 == 0x68 && c3 == 0x64;
    let is_moof = c0 == 0x6D && c1 == 0x6F && c2 == 0x6F && c3 == 0x66;
    let is_moov = c0 == 0x6D && c1 == 0x6F && c2 == 0x6F && c3 == 0x76;
    let is_mvhd = c0 == 0x6D && c1 == 0x76 && c2 == 0x68 && c3 == 0x64;
    let is_pdin = c0 == 0x70 && c1 == 0x64 && c2 == 0x69 && c3 == 0x6E;
    let is_saio = c0 == 0x73 && c1 == 0x61 && c2 == 0x69 && c3 == 0x6F;
    let is_saiz = c0 == 0x73 && c1 == 0x61 && c2 == 0x69 && c3 == 0x7A;
    let is_styp = c0 == 0x73 && c1 == 0x74 && c2 == 0x79 && c3 == 0x70;
    let is_subs = c0 == 0x73 && c1 == 0x75 && c2 == 0x62 && c3 == 0x73;
    let is_tfdt = c0 == 0x74 && c1 == 0x66 && c2 == 0x64 && c3 == 0x74;
    let is_tfhd = c0 == 0x74 && c1 == 0x66 && c2 == 0x68 && c3 == 0x64;
    let is_traf = c0 == 0x74 && c1 == 0x72 && c2 == 0x61 && c3 == 0x66;
    let is_trun = c0 == 0x74 && c1 == 0x72 && c2 == 0x75 && c3 == 0x6E;
    let dres: Result<Option<BoxData>, BoxParsingError> = if is_free {
        match crate::free::Free::parse(reader, content_size, &info) {
            Ok(b) => Ok(Some(BoxData::Free(b))),
            Err(e) => Err(e),
        }
    } else if is_ftyp {
        match crate::ftyp::Ftyp::parse(reader, content_size, &info) {
            Ok(b) => Ok(Some(BoxData::Ftyp(b))),
            Err(e) => Err(e),
        }
    } else if is_hdlr {
        match crate::hdlr::Hdlr::parse(reader, content_size, &info) {
            Ok(b) => Ok(Some(BoxData::Hdlr(b))),
            Err(e) => Err(e),
        }
    } else if is_mdat {
        match crate::mdat::Mdat::parse(reader, content_size, &info) {
            Ok(b) => Ok(Some(BoxData::Mdat(b))),
            Err(e) => Err(e),
        }
    } else if is_mfhd {
        match crate::mfhd::Mfhd::parse(reader, content_size, &info) {
            Ok(b) => Ok(Some(BoxData::Mfhd(b))),
            Err(e) => Err(e),
        }
    } else if is_moof {
        match crate::moof::Moof::parse(reader, content_size, &info) {
            Ok(b) => Ok(Some(BoxData::Moof(b))),
            Err(e) => Err(e),
        }
    } else if is_moov {
        match crate::moov::Moov::parse(reader, content_size, &info) {
            Ok(b) => Ok(Some(BoxData::Moov(b))),
            Err(e) => Err(e),
        }
    } else if is_mvhd {
        match crate::mvhd::Mvhd::parse(reader, content_size, &info) {
            Ok(b) => Ok(Some(BoxData::Mvhd(b))),
            Err(e) => Err(e),
        }
    } else if is_pdin {
        match crate::pdin::Pdin::parse(reader, content_size, &info) {
            Ok(b) => Ok(Some(BoxData::Pdin(b))),
            Err(e) => Err(e),
        }
    } else if is_saio {
        match crate::saio::Saio::parse(reader, content_size, &info) {
            Ok(b) => Ok(Some(BoxData::Saio(b))),
            Err(e) => Err(e),
        }
    } else if is_saiz {
        match crate::saiz::Saiz::parse(reader, content_size, &info) {
            Ok(b) => Ok(Some(BoxData::Saiz(b))),
            Err(e) => Err(e),
        }
    } else if is_styp {
        match crate::styp::Styp::parse(reader, content_size, &info) {
            Ok(b) => Ok(Some(BoxData::Styp(b))),
            Err(e) => Err(e),
        }
    } else if is_subs {
        match crate::subs::Subs::parse(reader, content_size, &info) {
            Ok(b) => Ok(Some(BoxData::Subs(b))),
            Err(e) => Err(e),
        }
    } else if is_tfdt {
        match crate::tfdt::Tfdt::parse(reader, content_size, &info) {
            Ok(b) => Ok(Some(BoxData::Tfdt(b))),
            Err(e) => Err(e),
        }
    } else if is_tfhd {
        match crate::tfhd::Tfhd::parse(reader, content_size, &info) {
            Ok(b) => Ok(Some(BoxData::Tfhd(b))),
            Err(e) => Err(e),
        }
    } else if is_traf {
        match crate::traf::Traf::parse(reader, content_size, &info) {
            Ok(b) => Ok(Some(BoxData::Traf(b))),
            Err(e) => Err(e),
        }
    } else if is_trun {
        match crate::trun::Trun::parse(reader, content_size, &info) {
            Ok(b) => Ok(Some(BoxData::Trun(b))),
            Err(e) => Err(e),
        }
    } else {
        match content_size {
            Some(n) => {
                match reader.skip_bytes(n) {
                    Ok(_) => Ok(None),
                    Err(e) => Err(e),
                }
            },
            None => {
                reader.skip_to_end();
                Ok(None)
            },
        }
    };
    let data: Option<BoxData> = match dres {
        Ok(d) => d,
        Err(e) => {
            proof {
                assert(payload_end(s, code, cs, content) is Err && err_matches(
                    e,
                    payload_end(s, code, cs, content)->Err_0,
                ));
                assert(err_ancestry_ok(e, s, Some(*info)));
            }
            return Err(e);
        },
    };
    proof {
        assert(payload_end(s, code, cs, content) matches Ok(pe) && pe == reader.posn());
    }
    Ok(data)
}

/// One decoded box header: where the box starts, the raw 32-bit size
/// field, the 4 code bytes, the resolved size, the header length, the
/// decoded type code, and the extended type for `uuid` boxes.
struct RawHeader {
    pos_before: u64,
    size32: u32,
    c: [u8; 4],
    size: u64,
    header_len: u64,
    short_name: String,
    extended_type: Option<[u8; 16]>,
}

/// The ghost content budget that a header implies for its decoder.
pub open spec fn content_of(size32: u32, size: int, header_len: int, budget: Option<int>) -> Option<
    int,
> {
    if size32 == 0 && budget is None {
        None
    } else {
        Some(size - header_len)
    }
}

/// Reads and validates one box header: size field, type code, extended
/// size, extended type, the header-fits check and the budget check.
#[verifier::rlimit(100)]
fn read_header(reader: &mut BoxReader, remaining: Option<u64>, parent: Option<&BoxInfo>) -> (r:
    Result<RawHeader, BoxParsingError>)
    requires
        old(reader).posn() <= old(reader).bytes().len(),
        match remaining {
            Some(b) => b >= 4,
            None => old(reader).posn() < old(reader).bytes().len(),
        },
    ensures
        final(reader).bytes() == old(reader).bytes(),
        ({
            let s = old(reader).bytes();
            let p = old(reader).posn();
            let bud = opt_int(remaining);
            match r {
                Ok(h) => {
                    let code = s.subrange(p + 4, p + 8);
                    let content = content_of(h.size32, h.size as int, h.header_len as int, bud);
                    &&& h.pos_before == p
                    &&& final(reader).posn() == p + h.header_len
                    &&& p + h.header_len <= s.len()
                    &&& p + 8 <= s.len()
                    &&& h.size32 as int == be32(s, p)
                    &&& h.c@ =~= code
                    &&& valid_utf8(code)
                    &&& h.short_name@ == decode_utf8(code)
                    &&& (h.size32 == 1 ==> p + 16 <= s.len() && h.size as int == be64(s, p + 8))
                    &&& (h.size32 == 0 ==> h.size as int == (match bud {
                        Some(b) => b,
                        None => s.len() - p,
                    }))
                    &&& (h.size32 != 0 && h.size32 != 1 ==> h.size as int == h.size32 as int)
                    &&& h.header_len as int == (if h.size32 == 1 {
                        16int
                    } else {
                        8int
                    }) + (if code_is(code, 0x75, 0x75, 0x69, 0x64) {
                        16int
                    } else {
                        0int
                    })
                    &&& (code_is(code, 0x75, 0x75, 0x69, 0x64) ==> (h.extended_type matches Some(
                        a,
                    ) && a@.len() == 16 && (forall|i: int|
                        0 <= i < 16 ==> a@[i] == s[p + (h.header_len - 16) + i])))
                    &&& (!code_is(code, 0x75, 0x75, 0x69, 0x64) ==> h.extended_type is None)
                    &&& h.size >= h.header_len
                    &&& h.header_len >= 8
                    &&& (remaining matches Some(b) ==> h.size <= b)
                    &&& level_end(s, p, bud) == (match payload_end(
                        s,
                        code,
                        p + h.header_len,
                        content,
                    ) {
                        Err(k) => Err::<int, ErrKind>(k),
                        Ok(dec_end) => {
                            let expected = p + h.size;
                            if dec_end < expected {
                                Err::<int, ErrKind>(
                                    ErrKind::ReadShort { expected_end: expected, actual_end: dec_end },
                                )
                            } else if dec_end > expected {
                                Err::<int, ErrKind>(
                                    ErrKind::ReadPastEnd { expected_end: expected, actual_end: dec_end },
                                )
                            } else if expected <= s.len() {
                                level_end(
                                    s,
                                    expected,
                                    match bud {
                                        Some(b) => Some(b - h.size),
                                        None => None::<int>,
                                    },
                                )
                            } else {
                                Err::<int, ErrKind>(
                                    ErrKind::ReadShort { expected_end: expected, actual_end: dec_end },
                                )
                            }
                        },
                    })
                },
                Err(e) => {
                    &&& level_end(s, p, bud) matches Err(k) && err_matches(e, k)
                    &&& err_ancestry_ok(e, s, parent_model(parent))
                },
            }
        }),
{
    let ghost s = old(reader).bytes();
    let ghost p = old(reader).posn();
    let ghost bud = opt_int(remaining);
    let pos_before = reader.get_pos();
    let size32 = match reader.read_u32() {
        Ok(v) => v,
        Err(e) => {
            return Err(e);
        },
    };
    let code_bytes = match reader.read_bytes(4) {
        Ok(v) => v,
        Err(e) => {
            return Err(e);
        },
    };
    let c = [code_bytes[0], code_bytes[1], code_bytes[2], code_bytes[3]];
    proof {
        assert(c@ =~= s.subrange(p + 4, p + 8));
    }
    let is_uuid = c[0] == 0x75 && c[1] == 0x75 && c[2] == 0x69 && c[3] == 0x64;
    let short_name = match crate::text::bytes_to_utf8(code_bytes) {
        Some(n) => n,
        None => {
            return Err(BoxParsingError::UTF8Error { pos: reader.get_pos() - 4 });
        },
    };
    let mut header_len: u64 = 8;
    let size: u64 = if size32 == 1 {
        header_len = 16;
        match reader.read_u64() {
            Ok(v) => v,
            Err(e) => {
                return Err(e);
            },
        }
    } else if size32 == 0 {
        match remaining {
            Some(b) => b,
            None => reader.stream_len() as u64 - pos_before,
        }
    } else {
        size32 as u64
    };
    let extended_type: Option<[u8; 16]> = if is_uuid {
        let e = match reader.read_bytes(16) {
            Ok(v) => v,
            Err(e) => {
                return Err(e);
            },
        };
        header_len = header_len + 16;
        let arr = [
            e[0],
            e[1],
            e[2],
            e[3],
            e[4],
            e[5],
            e[6],
            e[7],
            e[8],
            e[9],
            e[10],
            e[11],
            e[12],
            e[13],
            e[14],
            e[15],
        ];
        proof {
            assert forall|i: int| 0 <= i < 16 implies arr@[i] == s[p + (header_len - 16) + i] by {
                assert(arr@[i] == e@[i]);
            }
        }
        Some(arr)
    } else {
        None
    };
    if size < header_len {
        let parent_link = clone_parent(parent);
        proof {
            assert(ancestry_extends(parent_link, s, parent_model(parent)));
        }
        return Err(
            BoxParsingError::BoxTooSmall {
                offset: pos_before,
                size,
                short_name: Some(short_name),
                parent: parent_link,
            },
        );
    }
    if let Some(b) = remaining {
        if size > b {
            let info = BoxInfo {
                offset: pos_before,
                size,
                short_name,
                extended_type,
                parent: clone_parent(parent),
            };
            proof {
                assert(info_header_ok(info, s));
                assert(ancestry_extends(info.parent, s, parent_model(parent)));
            }
            return Err(BoxParsingError::BoxTooLarge { info, remaining: b });
        }
    }
    Ok(RawHeader { pos_before, size32, c, size, header_len, short_name, extended_type })
}

/// Reads one box at the cursor: header, size resolution and validation,
/// payload dispatch, and the exact-consumption check. `remaining` is what
/// is left of the enclosing level's budget.
#[verifier::rlimit(100)]
#[verifier::spinoff_prover]
fn parse_one_box(reader: &mut BoxReader, remaining: Option<u64>, parent: Option<&BoxInfo>) -> (r:
    Result<IsoBoxData, BoxParsingError>)
    requires
        old(reader).posn() <= old(reader).bytes().len(),
        match remaining {
            Some(b) => b >= 4,
            None => old(reader).posn() < old(reader).bytes().len(),
        },
    ensures
        final(reader).bytes() == old(reader).bytes(),
        match r {
            Ok(node) => {
                &&& final(reader).posn() <= final(reader).bytes().len()
                &&& node.0.offset as int == old(reader).posn()
                &&& node_ok(
                    old(reader).bytes(),
                    node,
                    remaining is None && be32(old(reader).bytes(), old(reader).posn()) == 0,
                )
                &&& parent_link_ok(node.0.parent, parent_model(parent))
                &&& final(reader).posn() == old(reader).posn() + node.0.size
                &&& node.0.size >= 8
                &&& (remaining matches Some(b) ==> node.0.size <= b)
                &&& level_end(old(reader).bytes(), old(reader).posn(), opt_int(remaining))
                    == level_end(
                    old(reader).bytes(),
                    old(reader).posn() + node.0.size,
                    match remaining {
                        Some(b) => Some(b - node.0.size as int),
                        None => None::<int>,
                    },
                )
            },
            Err(e) => {
                &&& level_end(old(reader).bytes(), old(reader).posn(), opt_int(remaining))
                    matches Err(k) && err_matches(e, k)
                &&& err_ancestry_ok(e, old(reader).bytes(), parent_model(parent))
            },
        },
    decreases reader.bytes().len() - reader.posn(), 1int,
{
    let ghost s = old(reader).bytes();
    let ghost p = old(reader).posn();
    let ghost bud = opt_int(remaining);
    let h = match read_header(reader, remaining, parent) {
        Ok(h) => h,
        Err(e) => {
            return Err(e);
        },
    };
    let RawHeader { pos_before, size32, c, size, header_len, short_name, extended_type } = h;
    let info = BoxInfo {
        offset: pos_before,
        size,
        short_name,
        extended_type,
        parent: clone_parent(parent),
    };
    let content_size: Option<u64> = if size32 == 0 && remaining.is_none() {
        None
    } else {
        Some(size - header_len)
    };
    let ghost content = opt_int(content_size);
    let ghost cs = p + header_len;
    proof {
        assert(content == content_of(size32, size as int, header_len as int, bud));
    }
    let data: Option<BoxData> = match parse_payload(
        reader,
        c[0],
        c[1],
        c[2],
        c[3],
        content_size,
        &info,
    ) {
        Ok(d) => d,
        Err(e) => {
            proof {
                assert(info_header_ok(info, s));
                lemma_err_ancestry_through(e, s, info, parent_model(parent));
            }
            return Err(e);
        },
    };
    let pos_after = reader.get_pos();
    proof {
        assert(payload_end(s, s.subrange(p + 4, p + 8), cs, content) matches Ok(pe) && pe
            == pos_after as int);
    }
    proof {
        assert(info_header_ok(info, s));
        assert(info_extends(info, s, parent_model(parent)));
    }
    // a cursor before the box start counts as short of the declared end;
    // the guard also keeps the span subtraction below meaningful
    if pos_after < pos_before {
        return Err(BoxParsingError::ReadNotEnough { info, actual_end: pos_after });
    }
    let span = pos_after - pos_before;
    if span < size {
        return Err(BoxParsingError::ReadNotEnough { info, actual_end: pos_after });
    }
    if span > size {
        return Err(BoxParsingError::ReadTooMuch { info, actual_end: pos_after });
    }
    proof {
        assert(info_header_ok(info, s));
        assert(node_ok(s, (info, data), remaining is None && size32 == 0));
    }
    Ok((info, data))
}

/// Parses the ordered sequence of boxes of one nesting level.
///
/// With `size_limit` of `Some(n)`, exactly `n` bytes are consumed on
/// success; with `None`, parsing runs until the stream is exhausted. Every
/// returned node satisfies [`node_ok`] against the stream, the nodes tile
/// the consumed range gap-free in on-disk order, and each carries `parent`
/// as its parent link. The first error aborts the whole parse; its kind
/// and key fields are pinned by [`level_end`] through [`err_matches`], and
/// any provenance it carries is header-accurate with an ancestry chain
/// running back to `parent` ([`err_ancestry_ok`]).
#[verifier::loop_isolation(false)]
pub fn parse_children(
    reader: &mut BoxReader,
    size_limit: Option<u64>,
    parent: Option<&BoxInfo>,
) -> (r: Result<Vec<IsoBoxData>, BoxParsingError>)
    requires
        old(reader).posn() <= old(reader).bytes().len(),
    ensures
        final(reader).bytes() == old(reader).bytes(),
        r is Ok <==> level_end(old(reader).bytes(), old(reader).posn(), opt_int(size_limit)) is Ok,
        match r {
            Ok(nodes) => {
                &&& level_end(old(reader).bytes(), old(reader).posn(), opt_int(size_limit))
                    matches Ok(end) && final(reader).posn() == end
                &&& nodes_chain(
                    old(reader).bytes(),
                    nodes@,
                    old(reader).posn(),
                    final(reader).posn(),
                    parent_model(parent),
                    size_limit is None,
                )
            },
            Err(e) => {
                &&& level_end(old(reader).bytes(), old(reader).posn(), opt_int(size_limit))
                    matches Err(k) && err_matches(e, k)
                &&& err_ancestry_ok(e, old(reader).bytes(), parent_model(parent))
            },
        },
    decreases reader.bytes().len() - reader.posn(), 2int,
{
    let ghost s = old(reader).bytes();
    let ghost p0 = old(reader).posn();
    let ghost bud0 = opt_int(size_limit);
    let mut contents: Vec<IsoBoxData> = Vec::new();
    let mut remaining: Option<u64> = size_limit;
    loop
        invariant
            reader.bytes() == s,
            p0 <= reader.posn() <= s.len(),
            (remaining is None) == (size_limit is None),
            level_end(s, p0, bud0) == level_end(s, reader.posn(), opt_int(remaining)),
            nodes_chain(s, contents@, p0, reader.posn(), parent_model(parent), size_limit is None),
        decreases s.len() - reader.posn(),
    {
        match remaining {
            Some(b) => {
                if b == 0 {
                    break ;
                }
                if b < 4 {
                    let parent_link = clone_parent(parent);
                    proof {
                        assert(ancestry_extends(parent_link, s, parent_model(parent)));
                    }
                    return Err(
                        BoxParsingError::BoxTooSmall {
                            offset: reader.get_pos(),
                            size: b,
                            short_name: None,
                            parent: parent_link,
                        },
                    );
                }
            },
            None => {
                if reader.is_empty() {
                    break ;
                }
            },
        }
        let ghost pos_it = reader.posn();
        let node = match parse_one_box(reader, remaining, parent) {
            Ok(n) => n,
            Err(e) => {
                return Err(e);
            },
        };
        let sz = node.0.size;
        proof {
            lemma_chain_snoc(
                s,
                contents@,
                p0,
                pos_it,
                parent_model(parent),
                size_limit is None,
                node,
            );
        }
        contents.push(node);
        if let Some(b) = remaining {
            remaining = Some(b - sz);
        }
    }
    Ok(contents)
}

} // verus!
