//! Global laws of the parser, proved from the engine's contracts: size
//! accounting over a whole stream, containment of children in their
//! container, the extended-size rule, and the rejection of boxes too
//! small to hold their own header.

use vstd::prelude::*;
use vstd::utf8::valid_utf8;
use crate::box_types::{BoxData, IsoBoxData};
use crate::bytes::{be32, be64};
use crate::engine::{code_is, level_end, node_ok, nodes_chain, payload_end};
use crate::error::ErrKind;

verus! {

/// The sum of the resolved sizes of a sequence of parsed boxes.
pub open spec fn total_size(nodes: Seq<IsoBoxData>) -> int
    decreases nodes.len(),
{
    if nodes.len() == 0 {
        0
    } else {
        nodes[0].0.size + total_size(nodes.subrange(1, nodes.len() as int))
    }
}

/// The child boxes a payload contains, for the container types.
pub open spec fn contained_of(data: Option<BoxData>) -> Option<Seq<IsoBoxData>> {
    match data {
        Some(BoxData::Moov(m)) => Some(m.content@),
        Some(BoxData::Moof(m)) => Some(m.content@),
        Some(BoxData::Traf(m)) => Some(m.content@),
        _ => None,
    }
}

/// A chained level's boxes exactly tile the range from `p` to `end`: the
/// sizes sum to the length of the range.
pub proof fn lemma_chain_total_size(
    s: Seq<u8>,
    nodes: Seq<IsoBoxData>,
    p: int,
    end: int,
    parent: Option<crate::box_types::BoxInfo>,
    budget_none: bool,
)
    requires
        nodes_chain(s, nodes, p, end, parent, budget_none),
    ensures
        total_size(nodes) == end - p,
    decreases nodes.len(),
{
    if nodes.len() > 0 {
        lemma_chain_total_size(
            s,
            nodes.subrange(1, nodes.len() as int),
            p + nodes[0].0.size,
            end,
            parent,
            budget_none,
        );
    }
}

/// Every box of a chained level lies inside the level's range.
pub proof fn lemma_chain_bounds(
    s: Seq<u8>,
    nodes: Seq<IsoBoxData>,
    p: int,
    end: int,
    parent: Option<crate::box_types::BoxInfo>,
    budget_none: bool,
)
    requires
        nodes_chain(s, nodes, p, end, parent, budget_none),
    ensures
        forall|i: int|
            0 <= i < nodes.len() ==> p <= #[trigger] nodes[i].0.offset && nodes[i].0.offset
                + nodes[i].0.size <= end,
    decreases nodes.len(),
{
    if nodes.len() > 0 {
        lemma_chain_bounds(
            s,
            nodes.subrange(1, nodes.len() as int),
            p + nodes[0].0.size,
            end,
            parent,
            budget_none,
        );
        let rest = nodes.subrange(1, nodes.len() as int);
        assert(nodes_chain(s, rest, p + nodes[0].0.size, end, parent, budget_none));
        if rest.len() == 0 {
            assert(rest =~= Seq::<IsoBoxData>::empty());
            assert(p + nodes[0].0.size == end);
        } else {
            assert(rest[0].0.offset + rest[0].0.size <= end);
        }
        assert forall|i: int|
            0 <= i < nodes.len() implies p <= #[trigger] nodes[i].0.offset && nodes[i].0.offset
            + nodes[i].0.size <= end by {
            if i > 0 {
                assert(nodes[i] == rest[i - 1]);
            }
        }
    }
}

/// Every box of a chained level is itself well-formed under [`node_ok`];
/// with [`lemma_children_within_parent`] this extends the containment law
/// to boxes at every depth of a parsed tree.
pub proof fn lemma_chain_each_node_ok(
    s: Seq<u8>,
    nodes: Seq<IsoBoxData>,
    p: int,
    end: int,
    parent: Option<crate::box_types::BoxInfo>,
    budget_none: bool,
)
    requires
        nodes_chain(s, nodes, p, end, parent, budget_none),
    ensures
        forall|i: int|
            0 <= i < nodes.len() ==> node_ok(
                s,
                #[trigger] nodes[i],
                budget_none && be32(s, nodes[i].0.offset as int) == 0,
            ),
    decreases nodes.len(),
{
    if nodes.len() > 0 {
        let rest = nodes.subrange(1, nodes.len() as int);
        lemma_chain_each_node_ok(s, rest, p + nodes[0].0.size, end, parent, budget_none);
        assert forall|i: int|
            0 <= i < nodes.len() implies node_ok(
            s,
            #[trigger] nodes[i],
            budget_none && be32(s, nodes[i].0.offset as int) == 0,
        ) by {
            if i > 0 {
                assert(nodes[i] == rest[i - 1]);
            }
        }
    }
}

/// A level parsed under a byte budget succeeds only by consuming exactly
/// the budget.
pub proof fn lemma_level_budget_consumed(s: Seq<u8>, p: int, b: int)
    requires
        level_end(s, p, Some(b)) is Ok,
    ensures
        level_end(s, p, Some(b)) matches Ok(end) && end == p + b,
    decreases (if p <= s.len() {
        s.len() - p + 1
    } else {
        0
    }),
{
    if b == 0 {
    } else {
        let size32 = be32(s, p);
        let code = s.subrange(p + 4, p + 8);
        let hdr0: int = if size32 == 1 {
            16
        } else {
            8
        };
        let rsize: int = if size32 == 1 {
            be64(s, p + 8)
        } else if size32 == 0 {
            b
        } else {
            size32
        };
        let is_uuid = code_is(code, 0x75, 0x75, 0x69, 0x64);
        let hdr: int = hdr0 + if is_uuid {
            16int
        } else {
            0int
        };
        match payload_end(s, code, p + hdr, Some(rsize - hdr)) {
            Err(k) => {
                assert(false);
            },
            Ok(dec_end) => {
                let expected = p + rsize;
                assert(dec_end == expected && expected <= s.len());
                lemma_level_budget_consumed(s, expected, b - rsize);
            },
        }
    }
}

/// For any well-formed input, the sum of the top-level box sizes equals
/// the total stream length. The hypothesis is exactly what
/// [`crate::parse_isobmff`] ensures of a successful parse.
pub proof fn lemma_top_level_sizes_sum(data: Seq<u8>, nodes: Seq<IsoBoxData>)
    requires
        nodes_chain(data, nodes, 0, data.len() as int, None, true),
    ensures
        total_size(nodes) == data.len(),
{
    lemma_chain_total_size(data, nodes, 0, data.len() as int, None, true);
}

/// Every child of a successfully parsed container box lies inside its
/// parent: `child.offset + child.size <= parent.offset + parent.size`,
/// and no child starts before the parent does.
pub proof fn lemma_children_within_parent(s: Seq<u8>, node: IsoBoxData, run_to_end: bool)
    requires
        node_ok(s, node, run_to_end),
    ensures
        contained_of(node.1) matches Some(children) ==> forall|i: int|
            0 <= i < children.len() ==> node.0.offset <= #[trigger] children[i].0.offset
                && children[i].0.offset + children[i].0.size <= node.0.offset + node.0.size,
{
    if let Some(children) = contained_of(node.1) {
        let info = node.0;
        let o = info.offset as int;
        let size32 = be32(s, o);
        let code = s.subrange(o + 4, o + 8);
        let hdr0: int = if size32 == 1 {
            16
        } else {
            8
        };
        let is_uuid = code_is(code, 0x75, 0x75, 0x69, 0x64);
        let hdr: int = hdr0 + if is_uuid {
            16int
        } else {
            0int
        };
        let cs = o + hdr;
        let content: Option<int> = if run_to_end {
            None
        } else {
            Some(info.size - hdr)
        };
        let e2 = level_end(s, cs, content)->Ok_0;
        if run_to_end {
            crate::engine::lemma_level_none_ends_at_stream_end(s, cs);
            assert(e2 == o + info.size);
        } else {
            lemma_level_budget_consumed(s, cs, info.size - hdr);
            assert(e2 == o + info.size);
        }
        lemma_chain_bounds(s, children, cs, e2, Some(info), run_to_end);
    }
}

/// A box whose wire size field is `1` takes its true size from the
/// following 8 bytes, and its content starts only after that 16-byte
/// header (24 bytes for a `uuid` box).
pub proof fn lemma_extended_size(s: Seq<u8>, node: IsoBoxData, run_to_end: bool)
    requires
        node_ok(s, node, run_to_end),
        be32(s, node.0.offset as int) == 1,
    ensures
        node.0.size as int == be64(s, node.0.offset + 8),
        node.0.size >= 16,
{
}

/// A box whose resolved size cannot hold its own header is rejected with
/// the "box too small" error: an ordinary box of size under 8, or an
/// extended-size box of size under 16. The parse never succeeds on such
/// a box, and the verified parser cannot panic on it.
pub proof fn lemma_small_box_rejected(s: Seq<u8>, p: int, budget: Option<int>)
    requires
        0 <= p,
        p + 8 <= s.len(),
        match budget {
            Some(b) => b >= 4,
            None => true,
        },
        valid_utf8(s.subrange(p + 4, p + 8)),
        !code_is(s.subrange(p + 4, p + 8), 0x75, 0x75, 0x69, 0x64),
        ({
            let size32 = be32(s, p);
            ||| 2 <= size32 < 8
            ||| (size32 == 1 && p + 16 <= s.len() && be64(s, p + 8) < 16)
        }),
    ensures
        (level_end(s, p, budget) matches Err(k) && (k matches ErrKind::TooSmall {
            offset,
            code,
            ..
        } && offset == p && code == Some(vstd::utf8::decode_utf8(s.subrange(p + 4, p + 8))))),
{
    let size32 = be32(s, p);
    let hdr0: int = if size32 == 1 {
        16
    } else {
        8
    };
    let rsize: int = if size32 == 1 {
        be64(s, p + 8)
    } else {
        size32
    };
    assert(rsize < hdr0);
}

} // verus!
