use isobmff_inspector::box_reader::BoxReader;
use isobmff_inspector::box_types::Flags;
use isobmff_inspector::error::{BoxParsingError, ReadStrError};

#[test]
fn reader_reads_fixed_width_integers() {
    let data = vec![0x12, 0x34, 0x56, 0x78, 0x9A, 0xBC, 0xDE, 0xF0, 0x01, 0x02];
    let mut r = BoxReader::create(data);
    assert_eq!(r.get_pos(), 0);
    assert_eq!(r.read_u16().unwrap_or(0), 0x1234);
    assert_eq!(r.get_pos(), 2);
    let w = match r.read_u32() {
        Ok(w) => w,
        Err(_) => panic!("read_u32 failed"),
    };
    assert_eq!(w, 0x56789ABC);
    assert_eq!(r.get_pos(), 6);
    assert!(!r.is_empty());
}

#[test]
fn reader_reads_u64_big_endian() {
    let data = vec![0x00, 0x00, 0x00, 0x01, 0x00, 0x00, 0x00, 0x02];
    let mut r = BoxReader::create(data);
    let v = match r.read_u64() {
        Ok(v) => v,
        Err(_) => panic!("read_u64 failed"),
    };
    assert_eq!(v, 0x00000001_00000002);
    assert!(r.is_empty());
}

#[test]
fn reader_reads_negative_i32() {
    let data = vec![0xFF, 0xFF, 0xFF, 0xFE, 0x00, 0x00, 0x00, 0x2A];
    let mut r = BoxReader::create(data);
    let v = match r.read_i32() {
        Ok(v) => v,
        Err(_) => panic!("read_i32 failed"),
    };
    assert_eq!(v, -2);
    let w = match r.read_i32() {
        Ok(v) => v,
        Err(_) => panic!("read_i32 failed"),
    };
    assert_eq!(w, 42);
}

#[test]
fn reader_read_fails_at_end_of_stream_without_moving() {
    let data = vec![0x01, 0x02];
    let mut r = BoxReader::create(data);
    let e = match r.read_u32() {
        Ok(_) => panic!("read_u32 should fail"),
        Err(e) => e,
    };
    assert!(matches!(e, BoxParsingError::IOError { pos: 0 }));
    assert_eq!(r.get_pos(), 0);
    assert_eq!(r.read_u16().unwrap_or(0), 0x0102);
}

#[test]
fn reader_read_str_decodes_ascii() {
    let data = vec![0x66, 0x74, 0x79, 0x70];
    let mut r = BoxReader::create(data);
    let s = match r.read_str(4) {
        Ok(s) => s,
        Err(_) => panic!("read_str failed"),
    };
    assert_eq!(s, "ftyp");
    assert!(r.is_empty());
}

#[test]
fn reader_read_str_decodes_multi_byte_utf8() {
    // 0xC3 0xA9 encodes a single 2-byte character; a decoder that handed
    // the raw bytes back unchanged would not produce this 1-character text.
    let data = vec![0xC3, 0xA9];
    let mut r = BoxReader::create(data);
    let s = match r.read_str(2) {
        Ok(s) => s,
        Err(_) => panic!("read_str failed"),
    };
    assert_eq!(s.chars().count(), 1);
    assert_eq!(s, "\u{e9}");
}

#[test]
fn reader_read_str_rejects_invalid_utf8() {
    let data = vec![0xFF, 0xFE, 0x00, 0x00];
    let mut r = BoxReader::create(data);
    let e = match r.read_str(4) {
        Ok(_) => panic!("read_str should fail"),
        Err(e) => e,
    };
    assert!(matches!(e, ReadStrError::FromUTF8Error { pos: 0 }));
    assert_eq!(r.get_pos(), 0);
}

#[test]
fn reader_skip_bytes_fails_rather_than_clamping() {
    let data = vec![0u8; 10];
    let mut r = BoxReader::create(data);
    assert!(r.skip_bytes(7).is_ok());
    assert_eq!(r.get_pos(), 7);
    let e = match r.skip_bytes(4) {
        Ok(_) => panic!("skip past the end should fail"),
        Err(e) => e,
    };
    assert!(matches!(e, BoxParsingError::IOError { pos: 7 }));
    assert_eq!(r.get_pos(), 7);
}

#[test]
fn reader_read_to_end_returns_remaining_bytes() {
    let data = vec![1, 2, 3, 4, 5];
    let mut r = BoxReader::create(data);
    let _ = r.read_u16();
    let rest = r.read_to_end();
    assert_eq!(rest, vec![3, 4, 5]);
    assert!(r.is_empty());
}

#[test]
fn flags_pack_three_bytes_big_endian() {
    let f = Flags::new([0x01, 0x02, 0x83]);
    assert_eq!(f.0, 0x010283);
    assert!(f.has_flag(0x000001));
    assert!(f.has_flag(0x000002));
    assert!(!f.has_flag(0x000010));
    assert!(f.has_flag(0x010000));
}

#[test]
fn flags_read_consumes_three_bytes() {
    let data = vec![0x00, 0x00, 0x07, 0xAA];
    let mut r = BoxReader::create(data);
    let f = match Flags::read(&mut r) {
        Ok(f) => f,
        Err(_) => panic!("Flags::read failed"),
    };
    assert_eq!(f.0, 7);
    assert_eq!(r.get_pos(), 3);
}

#[test]
fn flags_convert_back_to_words_and_bytes() {
    let f = Flags::new([0xAB, 0xCD, 0xEF]);
    let word: u32 = u32::from(f);
    assert_eq!(word, 0xABCDEF);
    let bytes: [u8; 3] = <[u8; 3]>::from(f);
    assert_eq!(bytes, [0xAB, 0xCD, 0xEF]);
}

#[test]
fn reader_skip_to_end_and_stream_len() {
    let data = vec![1, 2, 3, 4];
    let mut r = BoxReader::create(data);
    assert_eq!(r.stream_len(), 4);
    assert_eq!(r.remaining(), 4);
    r.skip_to_end();
    assert!(r.is_empty());
    assert_eq!(r.get_pos(), 4);
}
