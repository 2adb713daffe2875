use isobmff_inspector::box_reader::BoxReader;
use isobmff_inspector::box_types::{BoxInfo, BoxValue};
use isobmff_inspector::error::BoxParsingError;
use isobmff_inspector::ftyp::Ftyp;
use isobmff_inspector::hdlr::Hdlr;
use isobmff_inspector::mfhd::Mfhd;
use isobmff_inspector::mvhd::Mvhd;
use isobmff_inspector::pdin::Pdin;
use isobmff_inspector::saio::Saio;
use isobmff_inspector::saiz::Saiz;
use isobmff_inspector::sgpd::Sgpd;
use isobmff_inspector::sidx::Sidx;
use isobmff_inspector::styp::Styp;
use isobmff_inspector::subs::Subs;
use isobmff_inspector::tfdt::Tfdt;
use isobmff_inspector::tfhd::Tfhd;
use isobmff_inspector::trun::Trun;

fn info(name: &str, size: u64) -> BoxInfo {
    BoxInfo {
        offset: 0,
        size,
        short_name: name.to_string(),
        extended_type: None,
        parent: None,
    }
}

#[test]
fn mfhd_parses_sequence_number() {
    let data = vec![0, 0, 0, 0, 0, 0, 0, 9];
    let mut r = BoxReader::create(data);
    let b = Mfhd::parse(&mut r, Some(8), &info("mfhd", 16)).unwrap_or_else(|_| panic!());
    assert_eq!(b.version, 0);
    assert_eq!(b.flags.0, 0);
    assert_eq!(b.sequence_number, 9);
    let values = b.get_inner_values();
    assert_eq!(values.len(), 3);
    assert_eq!(values[0].0, "version");
    assert_eq!(values[2], ("sequence_number", BoxValue::UInt32(9)));
    assert_eq!(Mfhd::get_short_name(), "mfhd");
    assert_eq!(Mfhd::get_long_name(), "Movie Fragment Header Box");
}

#[test]
fn tfdt_selects_time_width_by_version() {
    let mut r = BoxReader::create(vec![0, 0, 0, 0, 0, 0, 0, 5]);
    let b = Tfdt::parse(&mut r, Some(8), &info("tfdt", 16)).unwrap_or_else(|_| panic!());
    assert_eq!(b.base_media_decode_time, 5);

    let mut r = BoxReader::create(vec![1, 0, 0, 0, 0, 0, 0, 1, 0, 0, 0, 2]);
    let b = Tfdt::parse(&mut r, Some(12), &info("tfdt", 20)).unwrap_or_else(|_| panic!());
    assert_eq!(b.base_media_decode_time, 0x1_00000002);
    assert_eq!(r.get_pos(), 12);
}

#[test]
fn pdin_rejects_nonzero_version() {
    let mut r = BoxReader::create(vec![7, 0, 0, 0, 0, 0, 0, 1, 0, 0, 0, 2]);
    let e = match Pdin::parse(&mut r, Some(12), &info("pdin", 20)) {
        Ok(_) => panic!("version 7 must be rejected"),
        Err(e) => e,
    };
    match e {
        BoxParsingError::InvalidVersion { expected, actual, info } => {
            assert_eq!(expected, vec![0]);
            assert_eq!(actual, 7);
            assert_eq!(info.short_name, "pdin");
        },
        _ => panic!("wrong error"),
    }
}

#[test]
fn pdin_parses_rate_and_delay() {
    let mut r = BoxReader::create(vec![0, 0, 0, 0, 0, 0, 1, 0, 0, 0, 0, 80]);
    let b = Pdin::parse(&mut r, Some(12), &info("pdin", 20)).unwrap_or_else(|_| panic!());
    assert_eq!(b.rate, 256);
    assert_eq!(b.delay, 80);
    let values = b.get_inner_values();
    assert_eq!(values[2], ("rate", BoxValue::UInt32(256)));
    assert_eq!(values[3], ("delay", BoxValue::UInt32(80)));
}

#[test]
fn hdlr_name_covers_exactly_the_content() {
    let mut data = vec![0, 0, 0, 0];
    data.extend_from_slice(&[0, 0, 0, 0]); // pre_defined
    data.extend_from_slice(&[0x76, 0x69, 0x64, 0x65]); // handler_type "vide"
    data.extend_from_slice(&[0, 0, 0]); // reserved
    data.extend_from_slice(b"VideoHandler");
    data.extend_from_slice(&[0xFF, 0xFF]); // bytes past this box's content
    let mut r = BoxReader::create(data);
    let b = Hdlr::parse(&mut r, Some(27), &info("hdlr", 35)).unwrap_or_else(|_| panic!());
    assert_eq!(b.handler_type, 0x76696465);
    assert_eq!(b.name, "VideoHandler");
    assert_eq!(r.get_pos(), 27);
    assert_eq!(r.remaining(), 2);
    let values = b.get_inner_values();
    assert_eq!(values[5], ("name", BoxValue::Utf8("VideoHandler".to_string())));
}

#[test]
fn hdlr_without_budget_reads_name_to_stream_end() {
    let mut data = vec![0, 0, 0, 0];
    data.extend_from_slice(&[0, 0, 0, 0]);
    data.extend_from_slice(&[0x73, 0x6F, 0x75, 0x6E]); // handler_type "soun"
    data.extend_from_slice(&[0, 0, 0]);
    data.extend_from_slice(b"Sound");
    let mut r = BoxReader::create(data);
    let b = Hdlr::parse(&mut r, None, &info("hdlr", 28)).unwrap_or_else(|_| panic!());
    assert_eq!(b.name, "Sound");
    assert!(r.is_empty());
}

#[test]
fn ftyp_parses_brands() {
    let mut data = vec![];
    data.extend_from_slice(b"isom");
    data.extend_from_slice(&[0, 0, 2, 0]);
    data.extend_from_slice(b"isomavc1");
    let mut r = BoxReader::create(data);
    let b = Ftyp::parse(&mut r, Some(16), &info("ftyp", 24)).unwrap_or_else(|_| panic!());
    assert_eq!(b.major_brand, "isom");
    assert_eq!(b.minor_brand, 512);
    assert_eq!(b.compatible_brands, vec!["isom".to_string(), "avc1".to_string()]);
    let values = b.get_inner_values();
    assert_eq!(values[0], ("major_brand", BoxValue::Utf8("isom".to_string())));
    assert_eq!(
        values[2],
        ("compatible_brands", BoxValue::Utf8Arr(vec!["isom".to_string(), "avc1".to_string()]))
    );
}

#[test]
fn styp_parses_like_ftyp() {
    let mut data = vec![];
    data.extend_from_slice(b"msdh");
    data.extend_from_slice(&[0, 0, 0, 0]);
    data.extend_from_slice(b"msdh");
    let mut r = BoxReader::create(data);
    let b = Styp::parse(&mut r, Some(12), &info("styp", 20)).unwrap_or_else(|_| panic!());
    assert_eq!(b.major_brand, "msdh");
    assert_eq!(b.compatible_brands, vec!["msdh".to_string()]);
    assert_eq!(Styp::get_short_name(), "styp");
}

#[test]
fn mvhd_parses_version_zero_layout() {
    let mut data = vec![0, 0, 0, 0];
    data.extend_from_slice(&[0, 0, 0, 1]); // creation_time
    data.extend_from_slice(&[0, 0, 0, 2]); // modification_time
    data.extend_from_slice(&[0, 0, 3, 0xE8]); // timescale 1000
    data.extend_from_slice(&[0, 0, 0, 50]); // duration
    data.extend_from_slice(&[0, 1, 0, 0]); // rate 1.0 fixed point
    data.extend_from_slice(&[1, 0]); // volume 1.0 fixed point
    data.extend_from_slice(&[0, 0]); // reserved_1
    data.extend_from_slice(&[0; 8]); // reserved_2
    for w in [0x10000u32, 0, 0, 0, 0x10000, 0, 0, 0, 0x40000000] {
        data.extend_from_slice(&w.to_be_bytes());
    }
    data.extend_from_slice(&[0; 24]); // pre_defined
    data.extend_from_slice(&[0, 0, 0, 4]); // next_track_id
    let mut r = BoxReader::create(data);
    let b = Mvhd::parse(&mut r, Some(100), &info("mvhd", 108)).unwrap_or_else(|_| panic!());
    assert_eq!(b.timescale, 1000);
    assert_eq!(b.duration, 50);
    assert_eq!(b.rate, [1, 0]);
    assert_eq!(b.volume, [1, 0]);
    assert_eq!(b.matrix[0], 0x10000);
    assert_eq!(b.matrix[8], 0x40000000);
    assert_eq!(b.next_track_id, 4);
    assert_eq!(r.get_pos(), 100);
    let values = b.get_inner_values();
    assert_eq!(values.len(), 13);
    assert_eq!(values[10], ("matrix", BoxValue::Matrix3_3(b.matrix)));
}

#[test]
fn mvhd_rejects_version_two() {
    let mut r = BoxReader::create(vec![2, 0, 0, 0, 0, 0, 0, 0]);
    let e = match Mvhd::parse(&mut r, Some(8), &info("mvhd", 16)) {
        Ok(_) => panic!("version 2 must be rejected"),
        Err(e) => e,
    };
    match e {
        BoxParsingError::InvalidVersion { expected, actual, .. } => {
            assert_eq!(expected, vec![0, 1]);
            assert_eq!(actual, 2);
        },
        _ => panic!("wrong error"),
    }
}

#[test]
fn tfhd_reads_only_flag_gated_fields() {
    // flags 0x000009: base_data_offset (8 bytes) + default_sample_duration
    let mut data = vec![0, 0, 0, 0x09];
    data.extend_from_slice(&[0, 0, 0, 7]); // track_id
    data.extend_from_slice(&[0, 0, 0, 0, 0, 0, 0, 0x40]); // base_data_offset
    data.extend_from_slice(&[0, 0, 0, 25]); // default_sample_duration
    let mut r = BoxReader::create(data);
    let b = Tfhd::parse(&mut r, Some(20), &info("tfhd", 28)).unwrap_or_else(|_| panic!());
    assert_eq!(b.track_id, 7);
    assert_eq!(b.base_data_offset, Some(0x40));
    assert_eq!(b.sample_description_index, None);
    assert_eq!(b.default_sample_duration, Some(25));
    assert_eq!(b.default_sample_size, None);
    assert_eq!(b.default_sample_flags, None);
    assert_eq!(r.get_pos(), 20);
    let values = b.get_inner_values();
    assert_eq!(values.len(), 5);
    assert_eq!(values[3], ("base_data_offset", BoxValue::UInt64(0x40)));
    assert_eq!(values[4], ("default_sample_duration", BoxValue::UInt32(25)));
}

#[test]
fn trun_version_zero_offsets_are_unsigned() {
    // flags 0x000801: data_offset + sample composition time offsets
    let mut data = vec![0, 0, 0x08, 0x01];
    data.extend_from_slice(&[0, 0, 0, 2]); // sample_count
    data.extend_from_slice(&[0xFF, 0xFF, 0xFF, 0xFF]); // data_offset = -1
    data.extend_from_slice(&[0x80, 0, 0, 0]); // cto sample 1
    data.extend_from_slice(&[0, 0, 0, 5]); // cto sample 2
    let mut r = BoxReader::create(data);
    let b = Trun::parse(&mut r, Some(16), &info("trun", 24)).unwrap_or_else(|_| panic!());
    assert_eq!(b.sample_count, 2);
    assert_eq!(b.data_offset, Some(-1));
    assert_eq!(b.first_sample_flags, None);
    assert_eq!(b.samples.len(), 2);
    // version 0 keeps the top-bit value positive
    assert_eq!(b.samples[0].composition_time_offset, Some(0x80000000));
    assert_eq!(b.samples[1].composition_time_offset, Some(5));
    assert_eq!(b.samples[0].duration, None);
}

#[test]
fn trun_version_one_offsets_are_signed() {
    let mut data = vec![1, 0, 0x08, 0x00];
    data.extend_from_slice(&[0, 0, 0, 1]);
    data.extend_from_slice(&[0xFF, 0xFF, 0xFF, 0xFE]); // cto = -2
    let mut r = BoxReader::create(data);
    let b = Trun::parse(&mut r, Some(12), &info("trun", 20)).unwrap_or_else(|_| panic!());
    assert_eq!(b.samples[0].composition_time_offset, Some(-2));
}

#[test]
fn trun_collection_rows_hold_present_fields() {
    // flags 0x000300: duration + size per sample
    let mut data = vec![0, 0, 0x03, 0x00];
    data.extend_from_slice(&[0, 0, 0, 1]);
    data.extend_from_slice(&[0, 0, 0, 10]); // duration
    data.extend_from_slice(&[0, 0, 1, 0]); // size
    let mut r = BoxReader::create(data);
    let b = Trun::parse(&mut r, Some(16), &info("trun", 24)).unwrap_or_else(|_| panic!());
    let values = b.get_inner_values();
    let (label, rows) = match &values[values.len() - 1] {
        (label, BoxValue::Collection(rows)) => (*label, rows),
        _ => panic!("samples must be a collection"),
    };
    assert_eq!(label, "samples");
    assert_eq!(rows.len(), 1);
    assert_eq!(rows[0].len(), 2);
    assert_eq!(rows[0][0], ("duration", BoxValue::UInt32(10)));
    assert_eq!(rows[0][1], ("size", BoxValue::UInt32(256)));
}

#[test]
fn saio_version_selects_offset_width() {
    let mut data = vec![0, 0, 0, 0];
    data.extend_from_slice(&[0, 0, 0, 2]); // entry_count
    data.extend_from_slice(&[0, 0, 0, 10]);
    data.extend_from_slice(&[0, 0, 0, 20]);
    let mut r = BoxReader::create(data);
    let b = Saio::parse(&mut r, Some(16), &info("saio", 24)).unwrap_or_else(|_| panic!());
    assert_eq!(b.offset, vec![10, 20]);

    let mut data = vec![1, 0, 0, 0];
    data.extend_from_slice(&[0, 0, 0, 1]);
    data.extend_from_slice(&[0, 0, 0, 1, 0, 0, 0, 0]);
    let mut r = BoxReader::create(data);
    let b = Saio::parse(&mut r, Some(16), &info("saio", 24)).unwrap_or_else(|_| panic!());
    assert_eq!(b.offset, vec![0x1_00000000]);
}

#[test]
fn saio_aux_info_fields_follow_flag_bit() {
    let mut data = vec![0, 0, 0, 1];
    data.extend_from_slice(&[0, 0, 0, 0x63]); // aux_info_type
    data.extend_from_slice(&[0, 0, 0, 5]); // aux_info_type_parameter
    data.extend_from_slice(&[0, 0, 0, 0]); // entry_count
    let mut r = BoxReader::create(data);
    let b = Saio::parse(&mut r, Some(16), &info("saio", 24)).unwrap_or_else(|_| panic!());
    assert_eq!(b.aux_info_type, Some(0x63));
    assert_eq!(b.aux_info_type_parameter, Some(5));
    assert_eq!(b.entry_count, 0);
}

#[test]
fn saiz_reads_sizes_only_when_default_is_zero() {
    let mut data = vec![0, 0, 0, 0];
    data.push(0); // default_sample_info_size
    data.extend_from_slice(&[0, 0, 0, 3]);
    data.extend_from_slice(&[7, 8, 9]);
    let mut r = BoxReader::create(data);
    let b = Saiz::parse(&mut r, Some(12), &info("saiz", 20)).unwrap_or_else(|_| panic!());
    assert_eq!(b.default_sample_info_size, 0);
    assert_eq!(b.sample_info_size, vec![7, 8, 9]);

    let mut data = vec![0, 0, 0, 0];
    data.push(16);
    data.extend_from_slice(&[0, 0, 0, 3]);
    let mut r = BoxReader::create(data);
    let b = Saiz::parse(&mut r, Some(9), &info("saiz", 17)).unwrap_or_else(|_| panic!());
    assert_eq!(b.default_sample_info_size, 16);
    assert_eq!(b.entry_count, 3);
    assert!(b.sample_info_size.is_empty());
}

#[test]
fn subs_parses_nested_subsamples() {
    let mut data = vec![0, 0, 0, 0];
    data.extend_from_slice(&[0, 0, 0, 1]); // entry_count
    data.extend_from_slice(&[0, 0, 0, 4]); // sample_delta
    data.extend_from_slice(&[0, 2]); // subsample_count
    data.extend_from_slice(&[0, 10]); // size 1 (16-bit in version 0)
    data.extend_from_slice(&[0, 20]); // size 2
    data.push(1); // subsample_priority
    data.push(0); // discardable
    data.extend_from_slice(&[0, 0, 0, 0]); // codec_specific_parameters
    let mut r = BoxReader::create(data);
    let b = Subs::parse(&mut r, Some(24), &info("subs", 32)).unwrap_or_else(|_| panic!());
    assert_eq!(b.entry_count, 1);
    assert_eq!(b.entries[0].sample_delta, 4);
    assert_eq!(b.entries[0].subsample_count, 2);
    assert_eq!(b.entries[0].subsample_size, vec![10, 20]);
    assert_eq!(b.entries[0].subsample_priority, 1);
}

#[test]
fn sidx_unpacks_bit_fields_by_masking() {
    let mut data = vec![0, 0, 0, 0];
    data.extend_from_slice(&[0, 0, 0, 1]); // reference_id
    data.extend_from_slice(&[0, 0, 0, 30]); // timescale
    data.extend_from_slice(&[0, 0, 0, 0]); // earliest_presentation_time
    data.extend_from_slice(&[0, 0, 0, 0]); // first_offset
    data.extend_from_slice(&[0, 0]); // reserved
    data.extend_from_slice(&[0, 1]); // reference_count
    // reference_type 1 + referenced_size 5
    data.extend_from_slice(&0x80000005u32.to_be_bytes());
    data.extend_from_slice(&[0, 0, 0, 90]); // subsegment_duration
    // starts_with_sap 1, sap_type 2, sap_delta_time 3
    data.extend_from_slice(&0xA0000003u32.to_be_bytes());
    let mut r = BoxReader::create(data);
    let b = Sidx::parse(&mut r, Some(32), &info("sidx", 40)).unwrap_or_else(|_| panic!());
    let x = &b.references[0];
    assert_eq!(x.reference_type, 1);
    assert_eq!(x.referenced_size, 5);
    assert_eq!(x.subsegment_duration, 90);
    assert!(x.starts_with_sap);
    assert_eq!(x.sap_type, 2);
    assert_eq!(x.sap_delta_time, 3);
}

#[test]
fn sgpd_parses_as_placeholder() {
    let mut r = BoxReader::create(vec![1, 2, 3]);
    let b = Sgpd::parse(&mut r, Some(3), &info("sgpd", 11)).unwrap_or_else(|_| panic!());
    assert!(b.get_inner_values().is_empty());
    assert_eq!(r.get_pos(), 0);
}

#[test]
fn mvhd_parses_version_one_layout() {
    let mut data = vec![1, 0, 0, 0];
    data.extend_from_slice(&7u64.to_be_bytes()); // creation_time
    data.extend_from_slice(&8u64.to_be_bytes()); // modification_time
    data.extend_from_slice(&90000u32.to_be_bytes()); // timescale
    data.extend_from_slice(&1234u64.to_be_bytes()); // duration
    data.extend_from_slice(&[0; 80]);
    let mut r = BoxReader::create(data);
    let b = Mvhd::parse(&mut r, Some(112), &info("mvhd", 120)).unwrap_or_else(|_| panic!());
    assert_eq!(b.version, 1);
    assert_eq!(b.creation_time, 7);
    assert_eq!(b.modification_time, 8);
    assert_eq!(b.timescale, 90000);
    assert_eq!(b.duration, 1234);
    assert_eq!(r.get_pos(), 112);
}

#[test]
fn subs_version_one_uses_wide_sizes() {
    let mut data = vec![1, 0, 0, 0];
    data.extend_from_slice(&[0, 0, 0, 1]);
    data.extend_from_slice(&[0, 0, 0, 2]); // sample_delta
    data.extend_from_slice(&[0, 1]); // subsample_count
    data.extend_from_slice(&0x12345u32.to_be_bytes()); // 32-bit size
    data.push(0);
    data.push(1);
    data.extend_from_slice(&[0, 0, 0, 9]);
    let mut r = BoxReader::create(data);
    let b = Subs::parse(&mut r, Some(24), &info("subs", 32)).unwrap_or_else(|_| panic!());
    assert_eq!(b.entries[0].subsample_size, vec![0x12345]);
    assert_eq!(b.entries[0].discardable, 1);
    assert_eq!(b.entries[0].codec_specific_parameters, 9);
}

#[test]
fn sidx_version_one_uses_wide_times() {
    let mut data = vec![1, 0, 0, 0];
    data.extend_from_slice(&[0, 0, 0, 1]); // reference_id
    data.extend_from_slice(&[0, 0, 0, 30]); // timescale
    data.extend_from_slice(&0x1_0000_0000u64.to_be_bytes()); // ept
    data.extend_from_slice(&0x2_0000_0001u64.to_be_bytes()); // first_offset
    data.extend_from_slice(&[0, 0]); // reserved
    data.extend_from_slice(&[0, 0]); // reference_count
    let mut r = BoxReader::create(data);
    let b = Sidx::parse(&mut r, Some(28), &info("sidx", 36)).unwrap_or_else(|_| panic!());
    assert_eq!(b.earliest_presentation_time, 0x1_0000_0000);
    assert_eq!(b.first_offset, 0x2_0000_0001);
    assert!(b.references.is_empty());
}

#[test]
fn ftyp_with_no_brands_stops_at_content_end() {
    let mut data = vec![];
    data.extend_from_slice(b"isom");
    data.extend_from_slice(&[0, 0, 0, 1]);
    data.extend_from_slice(b"avc1"); // bytes beyond this box's content
    let mut r = BoxReader::create(data);
    let b = Ftyp::parse(&mut r, Some(8), &info("ftyp", 16)).unwrap_or_else(|_| panic!());
    assert_eq!(b.minor_brand, 1);
    assert!(b.compatible_brands.is_empty());
    assert_eq!(r.get_pos(), 8);
}

#[test]
fn tfhd_with_all_optional_fields() {
    let mut data = vec![0, 0, 0, 0x3B];
    data.extend_from_slice(&[0, 0, 0, 1]); // track_id
    data.extend_from_slice(&9u64.to_be_bytes()); // base_data_offset
    data.extend_from_slice(&[0, 0, 0, 2]); // sample_description_index
    data.extend_from_slice(&[0, 0, 0, 3]); // default_sample_duration
    data.extend_from_slice(&[0, 0, 0, 4]); // default_sample_size
    data.extend_from_slice(&[0, 0, 0, 5]); // default_sample_flags
    let mut r = BoxReader::create(data);
    let b = Tfhd::parse(&mut r, Some(32), &info("tfhd", 40)).unwrap_or_else(|_| panic!());
    assert_eq!(b.base_data_offset, Some(9));
    assert_eq!(b.sample_description_index, Some(2));
    assert_eq!(b.default_sample_duration, Some(3));
    assert_eq!(b.default_sample_size, Some(4));
    assert_eq!(b.default_sample_flags, Some(5));
    let values = b.get_inner_values();
    assert_eq!(values.len(), 8);
}

#[test]
fn trun_with_first_sample_flags() {
    let mut data = vec![0, 0, 0x02, 0x05]; // data_offset + first_sample_flags + size
    data.extend_from_slice(&[0, 0, 0, 1]); // sample_count
    data.extend_from_slice(&[0, 0, 0, 64]); // data_offset
    data.extend_from_slice(&[0, 1, 0, 0]); // first_sample_flags
    data.extend_from_slice(&[0, 0, 2, 0]); // sample size
    let mut r = BoxReader::create(data);
    let b = Trun::parse(&mut r, Some(20), &info("trun", 28)).unwrap_or_else(|_| panic!());
    assert_eq!(b.data_offset, Some(64));
    assert_eq!(b.first_sample_flags, Some(0x10000));
    assert_eq!(b.samples[0].size, Some(512));
    assert_eq!(b.samples[0].flags, None);
}

#[test]
fn saio_collection_rows_name_each_offset() {
    let mut data = vec![0, 0, 0, 0];
    data.extend_from_slice(&[0, 0, 0, 1]);
    data.extend_from_slice(&[0, 0, 0, 77]);
    let mut r = BoxReader::create(data);
    let b = Saio::parse(&mut r, Some(12), &info("saio", 20)).unwrap_or_else(|_| panic!());
    let values = b.get_inner_values();
    assert_eq!(values[values.len() - 2], ("entry_count", BoxValue::UInt32(1)));
    match &values[values.len() - 1] {
        ("entries", BoxValue::Collection(rows)) => {
            assert_eq!(rows.len(), 1);
            assert_eq!(rows[0][0], ("offset", BoxValue::UInt64(77)));
        },
        _ => panic!("expected a collection of offsets"),
    }
}
