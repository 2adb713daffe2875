//! Selection of boxes by type code name over a parsed tree.
//!
//! A box whose name is selected is kept whole; an unselected box is not
//! shown, but its contained boxes are still searched, so selected boxes
//! at any depth appear, in traversal order.

use vstd::prelude::*;
use crate::box_types::{BoxData, BoxInfo, IsoBoxData};
use crate::ftyp::strs_views;

verus! {

/// What the filter keeps from a sequence of sibling boxes, in order:
/// a box whose name is among `names` is kept; otherwise its contained
/// boxes are filtered in its place.
pub open spec fn spec_filter(nodes: Seq<IsoBoxData>, names: Seq<Seq<char>>) -> Seq<
    (BoxInfo, Option<BoxData>),
>
    decreases nodes,
{
    if nodes.len() == 0 {
        seq![]
    } else {
        let node = nodes[0];
        let rest = spec_filter(nodes.subrange(1, nodes.len() as int), names);
        if names.contains(node.0.short_name@) {
            seq![(node.0, node.1)] + rest
        } else {
            (match node.1 {
                Some(d) => spec_filter_inner(d, names),
                None => seq![],
            }) + rest
        }
    }
}

/// What the filter keeps from inside one payload: the filtered children
/// for a container, nothing for any other payload.
pub open spec fn spec_filter_inner(data: BoxData, names: Seq<Seq<char>>) -> Seq<
    (BoxInfo, Option<BoxData>),
>
    decreases data,
{
    match data {
        BoxData::Moov(m) => spec_filter(m.content@, names),
        BoxData::Moof(m) => spec_filter(m.content@, names),
        BoxData::Traf(m) => spec_filter(m.content@, names),
        _ => seq![],
    }
}

/// A borrowed filter entry refers to exactly the given box.
pub open spec fn entry_matches(
    e: (&BoxInfo, Option<&BoxData>),
    g: (BoxInfo, Option<BoxData>),
) -> bool {
    &&& *e.0 == g.0
    &&& match (e.1, g.1) {
        (None, None) => true,
        (Some(a), Some(b)) => *a == b,
        _ => false,
    }
}

/// The borrowed entries refer one-for-one to the given boxes.
pub open spec fn entries_match(
    es: Seq<(&BoxInfo, Option<&BoxData>)>,
    gs: Seq<(BoxInfo, Option<BoxData>)>,
) -> bool {
    es.len() == gs.len() && (forall|i: int|
        0 <= i < es.len() ==> entry_matches(#[trigger] es[i], gs[i]))
}

/// Selects from `results` the boxes whose 4-character name is in
/// `display_only_boxes`; an unselected container's children are searched
/// in its place, so matches at any depth appear, in traversal order.
pub fn filter_results<'a>(
    results: &'a Vec<IsoBoxData>,
    display_only_boxes: &Vec<String>,
) -> (r: Vec<(&'a BoxInfo, Option<&'a BoxData>)>)
    ensures
        entries_match(r@, spec_filter(results@, strs_views(display_only_boxes@))),
{
    let mut filtered_results: Vec<(&'a BoxInfo, Option<&'a BoxData>)> = Vec::new();
    filter_level(&mut filtered_results, results, display_only_boxes);
    proof {
        assert(filtered_results@.subrange(0, filtered_results@.len() as int)
            =~= filtered_results@);
    }
    filtered_results
}

/// Whether `name` occurs in `names`.
fn contains_name(names: &Vec<String>, name: &String) -> (r: bool)
    ensures
        r == strs_views(names@).contains(name@),
{
    let mut i: usize = 0;
    while i < names.len()
        invariant
            i <= names@.len(),
            forall|j: int| 0 <= j < i as int ==> #[trigger] names@[j]@ != name@,
        decreases names@.len() - i,
    {
        if names[i].eq(name) {
            proof {
                assert(strs_views(names@)[i as int] == name@);
            }
            return true;
        }
        i = i + 1;
    }
    proof {
        assert forall|j: int| 0 <= j < strs_views(names@).len() implies #[trigger] strs_views(
            names@,
        )[j] != name@ by {
            assert(strs_views(names@)[j] == names@[j]@);
        }
    }
    false
}

/// Appends to `filtered_results` what the filter keeps from inside
/// `container`, preserving what was already collected.
#[verifier::loop_isolation(false)]
fn add_filtered_inner_boxes<'a>(
    filtered_results: &mut Vec<(&'a BoxInfo, Option<&'a BoxData>)>,
    container: &'a BoxData,
    display_only_boxes: &Vec<String>,
)
    ensures
        final(filtered_results)@.len() == old(filtered_results)@.len() + spec_filter_inner(
            *container,
            strs_views(display_only_boxes@),
        ).len(),
        forall|j: int|
            0 <= j < old(filtered_results)@.len() ==> #[trigger] final(filtered_results)@[j] == old(
                filtered_results,
            )@[j],
        entries_match(
            final(filtered_results)@.subrange(
                old(filtered_results)@.len() as int,
                final(filtered_results)@.len() as int,
            ),
            spec_filter_inner(*container, strs_views(display_only_boxes@)),
        ),
    decreases *container,
{
    let content: &Vec<IsoBoxData> = match container {
        BoxData::Moov(m) => &m.content,
        BoxData::Moof(m) => &m.content,
        BoxData::Traf(m) => &m.content,
        _ => {
            proof {
                assert(final(filtered_results)@.subrange(
                    old(filtered_results)@.len() as int,
                    final(filtered_results)@.len() as int,
                ) =~= Seq::<(&BoxInfo, Option<&BoxData>)>::empty());
            }
            return ;
        },
    };
    filter_level(filtered_results, content, display_only_boxes);
    proof {
        assert(spec_filter_inner(*container, strs_views(display_only_boxes@)) == spec_filter(
            content@,
            strs_views(display_only_boxes@),
        ));
    }
}

/// Appends to `acc` what the filter keeps from the sibling boxes in
/// `nodes`, preserving what was already collected.
#[verifier::loop_isolation(false)]
fn filter_level<'a>(
    acc: &mut Vec<(&'a BoxInfo, Option<&'a BoxData>)>,
    nodes: &'a Vec<IsoBoxData>,
    display_only_boxes: &Vec<String>,
)
    ensures
        final(acc)@.len() == old(acc)@.len() + spec_filter(
            nodes@,
            strs_views(display_only_boxes@),
        ).len(),
        forall|j: int|
            0 <= j < old(acc)@.len() ==> #[trigger] final(acc)@[j] == old(acc)@[j],
        entries_match(
            final(acc)@.subrange(old(acc)@.len() as int, final(acc)@.len() as int),
            spec_filter(nodes@, strs_views(display_only_boxes@)),
        ),
    decreases *nodes,
{
    let ghost names = strs_views(display_only_boxes@);
    let ghost base = old(acc)@.len() as int;
    let ghost mut done: Seq<(BoxInfo, Option<BoxData>)> = seq![];
    proof {
        assert(nodes@.subrange(0, nodes@.len() as int) =~= nodes@);
        assert(done + spec_filter(nodes@, names) =~= spec_filter(nodes@, names));
        assert(acc@.subrange(base, acc@.len() as int) =~= Seq::<
            (&BoxInfo, Option<&BoxData>),
        >::empty());
    }
    let mut i: usize = 0;
    while i < nodes.len()
        invariant
            i <= nodes@.len(),
            acc@.len() >= base,
            forall|j: int| 0 <= j < base ==> #[trigger] acc@[j] == old(acc)@[j],
            spec_filter(nodes@, names) == done + spec_filter(
                nodes@.subrange(i as int, nodes@.len() as int),
                names,
            ),
            entries_match(acc@.subrange(base, acc@.len() as int), done),
        decreases nodes@.len() - i,
    {
        let ghost suffix = nodes@.subrange(i as int, nodes@.len() as int);
        proof {
            assert(suffix[0] == nodes@[i as int]);
            assert(suffix.subrange(1, suffix.len() as int) =~= nodes@.subrange(
                i + 1,
                nodes@.len() as int,
            ));
        }
        let node = &nodes[i];
        if contains_name(display_only_boxes, &node.0.short_name) {
            let ghost acc_pre = acc@;
            let parsed_ref: Option<&BoxData> = match &node.1 {
                Some(d) => Some(d),
                None => None,
            };
            acc.push((&node.0, parsed_ref));
            proof {
                let head = seq![(node.0, node.1)];
                assert(acc@.subrange(base, acc@.len() as int) =~= acc_pre.subrange(
                    base,
                    acc_pre.len() as int,
                ).push((&node.0, parsed_ref)));
                assert(entries_match(acc@.subrange(base, acc@.len() as int), done + head));
                assert((done + head) + spec_filter(
                    nodes@.subrange(i + 1, nodes@.len() as int),
                    names,
                ) =~= done + (head + spec_filter(
                    nodes@.subrange(i + 1, nodes@.len() as int),
                    names,
                )));
                done = done + head;
            }
        } else {
            if let Some(d) = &node.1 {
                let ghost acc_pre = acc@;
                add_filtered_inner_boxes(acc, d, display_only_boxes);
                proof {
                    let inner = spec_filter_inner(*d, names);
                    assert(acc@.subrange(base, acc_pre.len() as int) =~= acc_pre.subrange(
                        base,
                        acc_pre.len() as int,
                    ));
                    assert forall|j: int|
                        0 <= j < (done + inner).len() implies entry_matches(
                        #[trigger] acc@.subrange(base, acc@.len() as int)[j],
                        (done + inner)[j],
                    ) by {
                        if j < done.len() {
                            assert(acc@.subrange(base, acc@.len() as int)[j] == acc_pre.subrange(
                                base,
                                acc_pre.len() as int,
                            )[j]);
                        } else {
                            assert(acc@.subrange(base, acc@.len() as int)[j] == acc@.subrange(
                                acc_pre.len() as int,
                                acc@.len() as int,
                            )[j - done.len()]);
                        }
                    }
                    assert(entries_match(acc@.subrange(base, acc@.len() as int), done + inner));
                    assert((done + inner) + spec_filter(
                        nodes@.subrange(i + 1, nodes@.len() as int),
                        names,
                    ) =~= done + (inner + spec_filter(
                        nodes@.subrange(i + 1, nodes@.len() as int),
                        names,
                    )));
                    done = done + inner;
                }
            }
        }
        i = i + 1;
    }
    proof {
        assert(nodes@.subrange(i as int, nodes@.len() as int) =~= Seq::<IsoBoxData>::empty());
        assert(done + spec_filter(Seq::<IsoBoxData>::empty(), names) =~= done);
    }
}

} // verus!
