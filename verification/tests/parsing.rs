use isobmff_inspector::box_reader::BoxReader;
use isobmff_inspector::box_types::{BoxData, IsoBoxData};
use isobmff_inspector::engine::parse_children;
use isobmff_inspector::error::BoxParsingError;
use isobmff_inspector::filter::filter_results;
use isobmff_inspector::parse_isobmff;

fn make_box(code: &[u8; 4], content: &[u8]) -> Vec<u8> {
    let size = (content.len() + 8) as u32;
    let mut out = vec![];
    out.extend_from_slice(&size.to_be_bytes());
    out.extend_from_slice(code);
    out.extend_from_slice(content);
    out
}

#[test]
fn ftyp_stream_parses_to_single_node() {
    // size=20, type "ftyp", major_brand "isom", minor_brand 512,
    // one compatible brand "isom"
    let data = vec![
        0x00, 0x00, 0x00, 0x14, 0x66, 0x74, 0x79, 0x70, 0x69, 0x73, 0x6F, 0x6D, 0x00, 0x00, 0x02,
        0x00, 0x69, 0x73, 0x6F, 0x6D,
    ];
    let nodes = parse_isobmff(data).unwrap_or_else(|_| panic!("parse failed"));
    assert_eq!(nodes.len(), 1);
    let (info, payload) = &nodes[0];
    assert_eq!(info.offset, 0);
    assert_eq!(info.size, 20);
    assert_eq!(info.short_name, "ftyp");
    assert!(info.extended_type.is_none());
    assert!(info.parent.is_none());
    let f = match payload {
        Some(BoxData::Ftyp(f)) => f,
        _ => panic!("expected an ftyp payload"),
    };
    assert_eq!(f.major_brand, "isom");
    assert_eq!(f.minor_brand, 512);
    assert_eq!(f.compatible_brands, vec!["isom".to_string()]);
}

#[test]
fn top_level_sizes_sum_to_stream_length() {
    let mut data = make_box(b"ftyp", &[0x69, 0x73, 0x6F, 0x6D, 0, 0, 0, 0]);
    data.extend(make_box(b"free", &[0; 5]));
    data.extend(make_box(b"mdat", &[1, 2, 3]));
    let total = data.len() as u64;
    let nodes = parse_isobmff(data).unwrap_or_else(|_| panic!("parse failed"));
    assert_eq!(nodes.len(), 3);
    let sum: u64 = nodes.iter().map(|n| n.0.size).sum();
    assert_eq!(sum, total);
    // the boxes tile the stream in order
    assert_eq!(nodes[0].0.offset, 0);
    assert_eq!(nodes[1].0.offset, nodes[0].0.size);
    assert_eq!(nodes[2].0.offset, nodes[1].0.offset + nodes[1].0.size);
}

#[test]
fn children_lie_within_their_container() {
    let inner = make_box(b"mfhd", &[0, 0, 0, 0, 0, 0, 0, 1]);
    let moof = make_box(b"moof", &inner);
    let nodes = parse_isobmff(moof).unwrap_or_else(|_| panic!("parse failed"));
    let (info, payload) = &nodes[0];
    assert_eq!(info.short_name, "moof");
    let m = match payload {
        Some(BoxData::Moof(m)) => m,
        _ => panic!("expected a moof payload"),
    };
    assert_eq!(m.content.len(), 1);
    let child = &m.content[0];
    assert_eq!(child.0.short_name, "mfhd");
    assert!(child.0.offset >= info.offset);
    assert!(child.0.offset + child.0.size <= info.offset + info.size);
    // the child's parent link cites the container's provenance
    let parent = child.0.parent.as_ref().unwrap_or_else(|| panic!("missing parent"));
    assert_eq!(parent.short_name, "moof");
    assert_eq!(parent.offset, 0);
    assert_eq!(parent.size, info.size);
}

#[test]
fn extended_size_box_counts_sixteen_header_bytes() {
    // size field 1: the true 64-bit size follows; here 16 + 4 content bytes
    let mut data = vec![0x00, 0x00, 0x00, 0x01];
    data.extend_from_slice(b"free");
    data.extend_from_slice(&20u64.to_be_bytes());
    data.extend_from_slice(&[9, 9, 9, 9]);
    let nodes = parse_isobmff(data).unwrap_or_else(|_| panic!("parse failed"));
    assert_eq!(nodes.len(), 1);
    assert_eq!(nodes[0].0.size, 20);
    assert!(matches!(nodes[0].1, Some(BoxData::Free(_))));
}

#[test]
fn size_zero_box_extends_to_end_of_stream() {
    let mut data = make_box(b"ftyp", &[0x69, 0x73, 0x6F, 0x6D, 0, 0, 0, 0]);
    let start = data.len() as u64;
    data.extend_from_slice(&[0, 0, 0, 0]);
    data.extend_from_slice(b"mdat");
    data.extend_from_slice(&[1, 2, 3, 4, 5, 6, 7]);
    let total = data.len() as u64;
    let nodes = parse_isobmff(data).unwrap_or_else(|_| panic!("parse failed"));
    assert_eq!(nodes.len(), 2);
    assert_eq!(nodes[1].0.offset, start);
    assert_eq!(nodes[1].0.size, total - start);
    assert!(matches!(nodes[1].1, Some(BoxData::Mdat(_))));
}

#[test]
fn ordinary_box_too_small_is_rejected() {
    let mut data = vec![0x00, 0x00, 0x00, 0x05];
    data.extend_from_slice(b"free");
    let e = match parse_isobmff(data) {
        Ok(_) => panic!("size 5 must be rejected"),
        Err(e) => e,
    };
    match e {
        BoxParsingError::BoxTooSmall { offset, size, short_name, .. } => {
            assert_eq!(offset, 0);
            assert_eq!(size, 5);
            assert_eq!(short_name.as_deref(), Some("free"));
        },
        _ => panic!("wrong error"),
    }
}

#[test]
fn extended_box_too_small_is_rejected() {
    let mut data = vec![0x00, 0x00, 0x00, 0x01];
    data.extend_from_slice(b"free");
    data.extend_from_slice(&10u64.to_be_bytes());
    let e = match parse_isobmff(data) {
        Ok(_) => panic!("extended size 10 must be rejected"),
        Err(e) => e,
    };
    assert!(matches!(e, BoxParsingError::BoxTooSmall { offset: 0, size: 10, .. }));
}

#[test]
fn decoder_reading_three_bytes_short_is_detected() {
    // a pdin box declares 23 bytes but its layout holds only 20:
    // the engine reports the expected and the actual end position
    let mut data = vec![0x00, 0x00, 0x00, 0x17];
    data.extend_from_slice(b"pdin");
    data.extend_from_slice(&[0, 0, 0, 0]); // version + flags
    data.extend_from_slice(&[0, 0, 0, 1]); // rate
    data.extend_from_slice(&[0, 0, 0, 2]); // delay
    data.extend_from_slice(&[0xAA, 0xBB, 0xCC]); // 3 bytes the decoder never reads
    let e = match parse_isobmff(data) {
        Ok(_) => panic!("under-consumption must be detected"),
        Err(e) => e,
    };
    match e {
        BoxParsingError::ReadNotEnough { info, actual_end } => {
            assert_eq!(info.offset + info.size, 23); // expected end
            assert_eq!(actual_end, 20);
            assert_eq!(info.short_name, "pdin");
        },
        _ => panic!("wrong error"),
    }
}

#[test]
fn decoder_reading_past_the_box_end_is_detected() {
    // an mfhd box declaring fewer bytes than its fixed layout consumes
    let mut data = vec![0x00, 0x00, 0x00, 0x0C];
    data.extend_from_slice(b"mfhd");
    data.extend_from_slice(&[0, 0, 0, 0, 0, 0, 0, 1]); // 8 bytes, 4 beyond the box
    let e = match parse_isobmff(data) {
        Ok(_) => panic!("over-consumption must be detected"),
        Err(e) => e,
    };
    match e {
        BoxParsingError::ReadTooMuch { info, actual_end } => {
            assert_eq!(info.offset + info.size, 12);
            assert_eq!(actual_end, 16);
        },
        _ => panic!("wrong error"),
    }
}

#[test]
fn unknown_code_is_skipped_and_parsing_resumes() {
    // an unrecognized code with declared content length 12: absent payload,
    // parsing resumes exactly 12 bytes later
    let mut data = make_box(b"abcd", &[7; 12]);
    let resume = data.len() as u64;
    data.extend(make_box(b"free", &[]));
    let nodes = parse_isobmff(data).unwrap_or_else(|_| panic!("parse failed"));
    assert_eq!(nodes.len(), 2);
    assert_eq!(nodes[0].0.short_name, "abcd");
    assert_eq!(nodes[0].0.size, 20);
    assert!(nodes[0].1.is_none());
    assert_eq!(nodes[1].0.offset, resume);
    assert_eq!(nodes[1].0.short_name, "free");
}

#[test]
fn oversized_child_fails_with_too_large_or_not_enough() {
    // container of declared size 16 holding a child that claims 12 bytes
    // when only 8 remain in the container
    let mut data = vec![0x00, 0x00, 0x00, 0x10];
    data.extend_from_slice(b"moov");
    data.extend_from_slice(&[0x00, 0x00, 0x00, 0x0C]);
    data.extend_from_slice(b"mfhd");
    // the stream itself continues, so only the budget check can fire
    data.extend_from_slice(&[0; 8]);
    let e = match parse_isobmff(data) {
        Ok(_) => panic!("overflowing child must be rejected"),
        Err(e) => e,
    };
    match e {
        BoxParsingError::BoxTooLarge { info, remaining } => {
            assert_eq!(info.size, 12);
            assert_eq!(remaining, 8);
            assert_eq!(info.short_name, "mfhd");
        },
        BoxParsingError::ReadNotEnough { .. } => {},
        _ => panic!("wrong error"),
    }
}

#[test]
fn uuid_box_carries_extended_type() {
    let mut content = vec![];
    let ext: Vec<u8> = (1..=16).collect();
    content.extend_from_slice(&ext);
    content.extend_from_slice(&[5, 5, 5, 5]);
    let data = make_box(b"uuid", &content);
    let nodes = parse_isobmff(data).unwrap_or_else(|_| panic!("parse failed"));
    assert_eq!(nodes.len(), 1);
    assert_eq!(nodes[0].0.short_name, "uuid");
    let got = nodes[0].0.extended_type.unwrap_or_else(|| panic!("missing extended type"));
    assert_eq!(got.to_vec(), ext);
    assert!(nodes[0].1.is_none());
}

#[test]
fn truncated_header_fails_with_io_error() {
    let data = vec![0x00, 0x00, 0x00, 0x10, 0x66];
    let e = match parse_isobmff(data) {
        Ok(_) => panic!("truncated header must fail"),
        Err(e) => e,
    };
    assert!(matches!(e, BoxParsingError::IOError { .. }));
}

#[test]
fn invalid_utf8_type_code_fails_with_utf8_error() {
    let mut data = vec![0x00, 0x00, 0x00, 0x0C];
    data.extend_from_slice(&[0xFF, 0xFE, 0xFD, 0xFC]);
    data.extend_from_slice(&[0, 0, 0, 0]);
    let e = match parse_isobmff(data) {
        Ok(_) => panic!("invalid code must fail"),
        Err(e) => e,
    };
    assert!(matches!(e, BoxParsingError::UTF8Error { .. }));
}

#[test]
fn version_error_aborts_whole_parse() {
    let mut data = make_box(b"pdin", &[9, 0, 0, 0, 0, 0, 0, 1, 0, 0, 0, 2]);
    data.extend(make_box(b"free", &[]));
    let e = match parse_isobmff(data) {
        Ok(_) => panic!("bad version must abort"),
        Err(e) => e,
    };
    assert!(matches!(e, BoxParsingError::InvalidVersion { actual: 9, .. }));
}

#[test]
fn nested_fragment_tree_parses() {
    let tfhd = make_box(b"tfhd", &[0, 0, 0, 0, 0, 0, 0, 3]);
    let tfdt = make_box(b"tfdt", &[0, 0, 0, 0, 0, 0, 0, 99]);
    let mut traf_content = tfhd;
    traf_content.extend(tfdt);
    let traf = make_box(b"traf", &traf_content);
    let mfhd = make_box(b"mfhd", &[0, 0, 0, 0, 0, 0, 0, 1]);
    let mut moof_content = mfhd;
    moof_content.extend(traf);
    let moof = make_box(b"moof", &moof_content);
    let nodes = parse_isobmff(moof).unwrap_or_else(|_| panic!("parse failed"));
    assert_eq!(nodes.len(), 1);
    let moof_payload = match &nodes[0].1 {
        Some(BoxData::Moof(m)) => m,
        _ => panic!("expected moof"),
    };
    assert_eq!(moof_payload.content.len(), 2);
    assert_eq!(moof_payload.content[0].0.short_name, "mfhd");
    assert_eq!(moof_payload.content[1].0.short_name, "traf");
    let traf_payload = match &moof_payload.content[1].1 {
        Some(BoxData::Traf(t)) => t,
        _ => panic!("expected traf"),
    };
    assert_eq!(traf_payload.content.len(), 2);
    let tfdt_payload = match &traf_payload.content[1].1 {
        Some(BoxData::Tfdt(t)) => t,
        _ => panic!("expected tfdt"),
    };
    assert_eq!(tfdt_payload.base_media_decode_time, 99);
    // grandchild ancestry runs back to the top-level box
    let tfdt_info = &traf_payload.content[1].0;
    let p1 = tfdt_info.parent.as_ref().unwrap_or_else(|| panic!("no parent"));
    assert_eq!(p1.short_name, "traf");
    let p2 = p1.parent.as_ref().unwrap_or_else(|| panic!("no grandparent"));
    assert_eq!(p2.short_name, "moof");
    assert!(p2.parent.is_none());
}

#[test]
fn empty_stream_parses_to_empty_tree() {
    let nodes = parse_isobmff(vec![]).unwrap_or_else(|_| panic!("parse failed"));
    assert!(nodes.is_empty());
}

#[test]
fn filter_selects_nested_boxes_by_name() {
    let tfdt = make_box(b"tfdt", &[0, 0, 0, 0, 0, 0, 0, 42]);
    let traf = make_box(b"traf", &tfdt);
    let moof = make_box(b"moof", &traf);
    let mut data = make_box(b"free", &[0; 4]);
    data.extend(moof);
    let nodes: Vec<IsoBoxData> = parse_isobmff(data).unwrap_or_else(|_| panic!("parse failed"));
    let names = vec!["tfdt".to_string()];
    let selected = filter_results(&nodes, &names);
    assert_eq!(selected.len(), 1);
    assert_eq!(selected[0].0.short_name, "tfdt");
    assert!(matches!(selected[0].1, Some(BoxData::Tfdt(_))));
}

#[test]
fn filter_keeps_matching_container_whole() {
    let mfhd = make_box(b"mfhd", &[0, 0, 0, 0, 0, 0, 0, 1]);
    let moof = make_box(b"moof", &mfhd);
    let nodes = parse_isobmff(moof).unwrap_or_else(|_| panic!("parse failed"));
    let names = vec!["moof".to_string()];
    let selected = filter_results(&nodes, &names);
    assert_eq!(selected.len(), 1);
    assert_eq!(selected[0].0.short_name, "moof");
    // a kept container is not searched further
    let names2 = vec!["moof".to_string(), "mfhd".to_string()];
    let selected2 = filter_results(&nodes, &names2);
    assert_eq!(selected2.len(), 1);
}

#[test]
fn filter_with_no_match_returns_empty() {
    let data = make_box(b"free", &[]);
    let nodes = parse_isobmff(data).unwrap_or_else(|_| panic!("parse failed"));
    let selected = filter_results(&nodes, &vec!["mdat".to_string()]);
    assert!(selected.is_empty());
}

#[test]
fn uuid_box_with_extended_size_counts_both_headers() {
    // wire size 1 with a 64-bit size, then the 16-byte extended type:
    // the content starts 32 bytes into the box
    let mut data = vec![0x00, 0x00, 0x00, 0x01];
    data.extend_from_slice(b"uuid");
    data.extend_from_slice(&36u64.to_be_bytes());
    data.extend_from_slice(&[0xEE; 16]);
    data.extend_from_slice(&[1, 2, 3, 4]);
    let nodes = parse_isobmff(data).unwrap_or_else(|_| panic!("parse failed"));
    assert_eq!(nodes.len(), 1);
    assert_eq!(nodes[0].0.size, 36);
    assert_eq!(nodes[0].0.extended_type, Some([0xEE; 16]));
    assert!(nodes[0].1.is_none());
}

#[test]
fn uuid_child_size_accounts_inside_container() {
    // the 16-byte extended type counts against the declared box size, so
    // a 24-byte uuid child exactly fills a container with 24 content bytes
    let mut child = vec![0x00, 0x00, 0x00, 0x18];
    child.extend_from_slice(b"uuid");
    child.extend_from_slice(&[0x11; 16]);
    let moov = make_box(b"moov", &child);
    let nodes = parse_isobmff(moov).unwrap_or_else(|_| panic!("parse failed"));
    let m = match &nodes[0].1 {
        Some(BoxData::Moov(m)) => m,
        _ => panic!("expected moov"),
    };
    assert_eq!(m.content.len(), 1);
    assert_eq!(m.content[0].0.short_name, "uuid");
    assert_eq!(m.content[0].0.size, 24);
}

#[test]
fn size_zero_container_holds_its_children() {
    // a moov with wire size 0 extends to the end of the stream, and its
    // children parse against that resolved range
    let mvhd_content = {
        let mut c = vec![0u8, 0, 0, 0];
        c.extend_from_slice(&[0; 96]);
        c
    };
    let mvhd = make_box(b"mvhd", &mvhd_content);
    let mut data = vec![0x00, 0x00, 0x00, 0x00];
    data.extend_from_slice(b"moov");
    data.extend_from_slice(&mvhd);
    let total = data.len() as u64;
    let nodes = parse_isobmff(data).unwrap_or_else(|_| panic!("parse failed"));
    assert_eq!(nodes.len(), 1);
    assert_eq!(nodes[0].0.size, total);
    let m = match &nodes[0].1 {
        Some(BoxData::Moov(m)) => m,
        _ => panic!("expected moov"),
    };
    assert_eq!(m.content.len(), 1);
    assert!(matches!(m.content[0].1, Some(BoxData::Mvhd(_))));
}

#[test]
fn budget_smaller_than_a_size_field_is_rejected() {
    // a container with 3 content bytes cannot even hold a size field
    let moov = make_box(b"moov", &[0, 0, 0]);
    let e = match parse_isobmff(moov) {
        Ok(_) => panic!("3-byte level must be rejected"),
        Err(e) => e,
    };
    assert!(matches!(e, BoxParsingError::BoxTooSmall { offset: 8, size: 3, short_name: None, .. }));
}

#[test]
fn parse_children_with_budget_consumes_exactly_it() {
    let mut data = make_box(b"free", &[0; 2]);
    data.extend(make_box(b"mdat", &[9]));
    data.extend_from_slice(&[0xAA, 0xBB]); // bytes beyond the budget
    let budget = (data.len() - 2) as u64;
    let mut r = BoxReader::create(data);
    let nodes = parse_children(&mut r, Some(budget), None)
        .unwrap_or_else(|_| panic!("parse failed"));
    assert_eq!(nodes.len(), 2);
    assert_eq!(r.get_pos(), budget);
    assert_eq!(r.remaining(), 2);
}

#[test]
fn moov_exposes_children_both_owned_and_borrowed() {
    let mfhd = make_box(b"mfhd", &[0, 0, 0, 0, 0, 0, 0, 1]);
    let moov = make_box(b"moov", &mfhd);
    let nodes = parse_isobmff(moov).unwrap_or_else(|_| panic!("parse failed"));
    let m = match nodes.into_iter().next() {
        Some((_, Some(BoxData::Moov(m)))) => m,
        _ => panic!("expected moov"),
    };
    let borrowed = m.get_contained_boxes().unwrap_or_else(|| panic!("no children"));
    assert_eq!(borrowed.len(), 1);
    assert!(m.get_inner_values().is_empty());
    let owned = m.get_inner_boxes();
    assert_eq!(owned.len(), 1);
    assert_eq!(owned[0].0.short_name, "mfhd");
}

#[test]
fn hdlr_box_is_not_forced_to_be_last() {
    // an hdlr inside a stream with a following box: the name stops at the
    // box's own content end and parsing resumes cleanly
    let mut content = vec![0, 0, 0, 0];
    content.extend_from_slice(&[0, 0, 0, 0]); // pre_defined
    content.extend_from_slice(&[0x76, 0x69, 0x64, 0x65]); // handler_type
    content.extend_from_slice(&[0, 0, 0]); // reserved
    content.extend_from_slice(b"VideoHandler");
    let mut data = make_box(b"hdlr", &content);
    data.extend(make_box(b"free", &[0; 4]));
    let nodes = parse_isobmff(data).unwrap_or_else(|_| panic!("parse failed"));
    assert_eq!(nodes.len(), 2);
    let h = match &nodes[0].1 {
        Some(BoxData::Hdlr(h)) => h,
        _ => panic!("expected hdlr"),
    };
    assert_eq!(h.name, "VideoHandler");
    assert_eq!(nodes[1].0.short_name, "free");
}

#[test]
fn too_small_error_cites_type_code_and_parent() {
    // a too-small child inside a container: the error names the child's
    // code and carries the container's provenance as its parent
    let mut child = vec![0x00, 0x00, 0x00, 0x06];
    child.extend_from_slice(b"xyzw");
    let mut moov = vec![0x00, 0x00, 0x00, 0x10];
    moov.extend_from_slice(b"moov");
    moov.extend_from_slice(&child);
    let e = match parse_isobmff(moov) {
        Ok(_) => panic!("size 6 must be rejected"),
        Err(e) => e,
    };
    match e {
        BoxParsingError::BoxTooSmall { offset, size, short_name, parent } => {
            assert_eq!(offset, 8);
            assert_eq!(size, 6);
            assert_eq!(short_name.as_deref(), Some("xyzw"));
            let p = parent.unwrap_or_else(|| panic!("missing parent"));
            assert_eq!(p.short_name, "moov");
            assert_eq!(p.offset, 0);
            assert_eq!(p.size, 16);
            assert!(p.parent.is_none());
        },
        _ => panic!("wrong error"),
    }
}

#[test]
fn too_large_error_cites_offset_and_type_code() {
    let mut data = vec![0x00, 0x00, 0x00, 0x10];
    data.extend_from_slice(b"moov");
    data.extend_from_slice(&[0x00, 0x00, 0x00, 0x0C]);
    data.extend_from_slice(b"mfhd");
    data.extend_from_slice(&[0; 8]);
    let e = match parse_isobmff(data) {
        Ok(_) => panic!("overflowing child must be rejected"),
        Err(e) => e,
    };
    match e {
        BoxParsingError::BoxTooLarge { info, remaining } => {
            assert_eq!(info.offset, 8);
            assert_eq!(info.size, 12);
            assert_eq!(info.short_name, "mfhd");
            assert_eq!(remaining, 8);
            let p = info.parent.as_ref().unwrap_or_else(|| panic!("missing parent"));
            assert_eq!(p.short_name, "moov");
        },
        _ => panic!("wrong error"),
    }
}

#[test]
fn nested_version_error_carries_full_ancestry() {
    // an invalid pdin version two containers deep: the error's provenance
    // chain runs pdin -> traf -> moof
    let pdin = make_box(b"pdin", &[9, 0, 0, 0, 0, 0, 0, 1, 0, 0, 0, 2]);
    let traf = make_box(b"traf", &pdin);
    let moof = make_box(b"moof", &traf);
    let e = match parse_isobmff(moof) {
        Ok(_) => panic!("bad version must abort"),
        Err(e) => e,
    };
    match e {
        BoxParsingError::InvalidVersion { info, actual, .. } => {
            assert_eq!(actual, 9);
            assert_eq!(info.short_name, "pdin");
            let p1 = info.parent.as_ref().unwrap_or_else(|| panic!("no parent"));
            assert_eq!(p1.short_name, "traf");
            let p2 = p1.parent.as_ref().unwrap_or_else(|| panic!("no grandparent"));
            assert_eq!(p2.short_name, "moof");
            assert!(p2.parent.is_none());
        },
        _ => panic!("wrong error"),
    }
}
