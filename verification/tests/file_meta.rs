use fclones::error::Error;
use fclones::hash::{AsFileHash, FileHash};
use fclones::ident::{file_id_or_log_err, FileId, FileMetadata, FsError, FsErrorKind};
use fclones::info::{file_info_or_log_err, AsPath, FileChunk, FileInfo, IntoPath};
use fclones::units::{FileLen, FilePos};

#[test]
fn test_format_bytes() {
    let file_len = FileLen(16000);
    let human_readable = file_len.format();
    assert_eq!(human_readable, "16.0 KB");
}

#[test]
fn test_format_small_value_is_plain_decimal() {
    assert_eq!(FileLen(0).format(), "0 B");
    assert_eq!(FileLen(999).format(), "999 B");
}

#[test]
fn test_format_padded_appends_spaces() {
    assert_eq!(FileLen(16000).format_padded(10), "16.0 KB   ");
    assert_eq!(FileLen(16000).format_padded(3), "16.0 KB");
}

#[test]
fn test_parse_size_string() {
    assert_eq!(FileLen::from_str("16K").unwrap(), FileLen(16000));
    assert_eq!(FileLen::from_str("1.5 GB").unwrap(), FileLen(1_500_000_000));
    assert_eq!(FileLen::from_str("8 KiB").unwrap(), FileLen(8192));
    assert_eq!(FileLen::from_str("42").unwrap(), FileLen(42));
}

#[test]
fn test_parse_size_string_rejects_malformed_input() {
    let e = FileLen::from_str("bogus").unwrap_err();
    assert_eq!(e.message, "cannot parse file size: bogus");
    assert!(FileLen::from_str("").is_err());
}

#[test]
fn test_parse_size_string_rejects_oversized_input() {
    // would overflow the parsing crate's 128-bit unit arithmetic
    let e = FileLen::from_str("1000000000000000000 ZiB").unwrap_err();
    assert_eq!(
        e.message,
        "cannot parse file size: 1000000000000000000 ZiB"
    );
    // parses, but does not fit in 64 bits: an error, not a wrapped value
    assert!(FileLen::from_str("200000 PB").is_err());
    assert!(FileLen::from_str("99 ZiB").is_err());
}

#[test]
fn test_parse_size_string_digit_budget() {
    // 17 digit characters are accepted ...
    assert_eq!(
        FileLen::from_str("10000000000000000").unwrap(),
        FileLen(10_000_000_000_000_000)
    );
    // ... an 18th is rejected up front, even though the value would fit
    assert!(FileLen::from_str("100000000000000000").is_err());
    // the largest sizes still reachable within the budget parse fine
    assert_eq!(
        FileLen::from_str("18 EB").unwrap(),
        FileLen(18_000_000_000_000_000_000)
    );
}

#[test]
fn test_u64_conversions_round_trip() {
    for v in [0u64, 1, 16000, u64::MAX] {
        assert_eq!(u64::from(FilePos::from(v)), v);
        assert_eq!(u64::from(FileLen::from(v)), v);
    }
    assert_eq!(usize::from(FilePos::from(7usize)), 7usize);
    assert_eq!(usize::from(FileLen::from(7usize)), 7usize);
}

#[test]
fn test_pos_arithmetic() {
    assert_eq!(FilePos::zero().add(FileLen(10)), FilePos(10));
    assert_eq!(FilePos(100).sub(FileLen(30)), FilePos(70));
    assert_eq!(FilePos(12345).format(), "12345");
    assert_eq!(FilePos(0).format(), "0");
}

#[test]
fn test_len_arithmetic() {
    assert_eq!(FileLen(2).add(FileLen(3)), FileLen(5));
    assert_eq!(FileLen(5).sub(FileLen(3)), FileLen(2));
    assert_eq!(FileLen(5).mul(3), FileLen(15));
    assert_eq!(FileLen::max(), FileLen(u64::MAX));
    assert_eq!(FileLen(7).as_pos(), FilePos(7));
    let mut l = FileLen(1);
    l.add_assign(FileLen(2));
    assert_eq!(l, FileLen(3));
}

#[test]
fn test_sum_of_lengths() {
    assert_eq!(FileLen::sum(&vec![]), Some(FileLen(0)));
    let a = vec![FileLen(1), FileLen(2), FileLen(3)];
    let b = vec![FileLen(3), FileLen(1), FileLen(2)];
    assert_eq!(FileLen::sum(&a), Some(FileLen(6)));
    assert_eq!(FileLen::sum(&a), FileLen::sum(&b));
    assert_eq!(FileLen::sum(&vec![FileLen(u64::MAX), FileLen(1)]), None);
}

#[test]
fn test_hash_format_is_32_lowercase_hex_digits() {
    assert_eq!(
        FileHash(0).format(),
        "00000000000000000000000000000000"
    );
    assert_eq!(
        FileHash(255).format(),
        "000000000000000000000000000000ff"
    );
    assert_eq!(
        FileHash(u128::MAX).format(),
        "ffffffffffffffffffffffffffffffff"
    );
}

#[test]
fn test_hash_format_padded() {
    assert_eq!(
        FileHash(255).format_padded(34),
        "000000000000000000000000000000ff  "
    );
    assert_eq!(
        FileHash(255).format_padded(4),
        "000000000000000000000000000000ff"
    );
}

#[test]
fn test_hash_text_round_trip() {
    for h in [0u128, 1, 0xdead_beef, 0x0123_4567_89ab_cdef_fedc_ba98_7654_3210, u128::MAX] {
        let text = FileHash(h).format();
        assert_eq!(text.len(), 32);
        assert_eq!(FileHash::from_str(&text).unwrap(), FileHash(h));
    }
}

#[test]
fn test_hash_parse_rejects_other_formats() {
    let e = FileHash::from_str("ff").unwrap_err();
    assert_eq!(e.message, "not a 32-digit lowercase hex string: ff");
    // uppercase digits are not the canonical form
    assert!(FileHash::from_str("000000000000000000000000000000FF").is_err());
    assert!(FileHash::from_str("0000000000000000000000000000000g").is_err());
    assert!(FileHash::from_str("").is_err());
}

#[test]
fn test_hash_xor_is_self_inverse() {
    let a = FileHash(0x1111_2222_3333_4444_5555_6666_7777_8888);
    let b = FileHash(0x0f0f_0f0f_0f0f_0f0f_f0f0_f0f0_f0f0_f0f0);
    assert_eq!(a.bitxor(b).bitxor(b), a);
    assert_eq!(a.bitxor(b), b.bitxor(a));
}

#[test]
fn test_as_file_hash() {
    let h = FileHash(5);
    assert_eq!(*h.as_file_hash(), FileHash(5));
    let pair = ("name".to_string(), FileHash(9));
    assert_eq!(*pair.as_file_hash(), FileHash(9));
}

#[test]
fn test_file_id_equality_follows_fields() {
    let a = FileId::new(42, 7);
    let b = FileId::new(42, 7);
    let c = FileId::new(43, 7);
    let d = FileId::new(42, 8);
    assert_eq!(a, b);
    assert_ne!(a, c);
    assert_ne!(a, d);
}

#[test]
fn test_file_id_or_log_err_classification() {
    let ok = file_id_or_log_err(Ok(FileId::new(1, 2)));
    assert_eq!(ok.0, Some(FileId::new(1, 2)));
    assert!(ok.1.is_none());

    let not_found = file_id_or_log_err(Err(FsError::new(
        FsErrorKind::NotFound,
        "gone".to_string(),
    )));
    assert!(not_found.0.is_none());
    assert!(not_found.1.is_none());

    let other = file_id_or_log_err(Err(FsError::new(
        FsErrorKind::Other,
        "permission denied".to_string(),
    )));
    assert!(other.0.is_none());
    assert_eq!(other.1, Some("permission denied".to_string()));
}

#[test]
fn test_metadata_reports_resolved_values() {
    let m = FileMetadata::new(16000, 7, 999);
    assert_eq!(m.len(), FileLen(16000));
    assert_eq!(m.device_id(), 7);
    assert_eq!(m.inode_id(), 999);
    assert_eq!(m.file_id(), FileId::new(999, 7));
    // end to end: a 16000-byte file formats as "16.0 KB"
    assert_eq!(m.len().format(), "16.0 KB");
}

#[test]
fn test_device_index_recovered_for_all_packed_values() {
    for d in [0u16, 1, 2, 255, 4096, 65535] {
        let info = FileInfo::new("/a".to_string(), d, &FileMetadata::new(10, 1, 0xabcdef));
        assert_eq!(info.get_device_index(), d as usize);
    }
}

#[test]
fn test_location_packs_device_index_and_inode() {
    let m = FileMetadata::new(10, 1, 0x1234_5678_9abc_def0_u128);
    let info = FileInfo::new("/a".to_string(), 3, &m);
    // top 16 bits: device index; low 48 bits: low 48 bits of the inode
    assert_eq!(info.location, (3u64 << 48) | 0x5678_9abc_def0);
    assert_eq!(info.len, FileLen(10));
}

#[test]
fn test_update_physical_location_with_no_extent_keeps_location() {
    let m = FileMetadata::new(10, 1, 0xabc);
    let mut info = FileInfo::new("/a".to_string(), 5, &m);
    let before = info.location;
    let returned = info.update_physical_location(None);
    assert_eq!(info.location, before);
    assert_eq!(returned, before);
}

#[test]
fn test_update_physical_location_replaces_low_bits() {
    let m = FileMetadata::new(10, 1, 0xabc);
    let mut info = FileInfo::new("/a".to_string(), 5, &m);
    let physical = 0x0102_0304_0506_0708_u64;
    let returned = info.update_physical_location(Some(physical));
    assert_eq!(info.location, (5u64 << 48) | ((physical >> 8) & 0x0000_FFFF_FFFF_FFFF));
    assert_eq!(info.get_device_index(), 5);
    assert_eq!(returned, info.location);
}

#[test]
fn test_file_info_or_log_err_classification() {
    let m = FileMetadata::new(1, 1, 1);
    let built = FileInfo::new("/a".to_string(), 0, &m);
    let loc = built.location;
    let ok = file_info_or_log_err(Ok(built));
    assert_eq!(ok.0.as_ref().map(|i| i.location), Some(loc));
    assert!(ok.1.is_none());

    // a path deleted between enumeration and the metadata read is
    // dropped silently, not reported as a generic failure
    let vanished = file_info_or_log_err(Err(FsError::new(
        FsErrorKind::NotFound,
        "vanished".to_string(),
    )));
    assert!(vanished.0.is_none());
    assert!(vanished.1.is_none());

    let failed = file_info_or_log_err(Err(FsError::new(
        FsErrorKind::Other,
        "device error".to_string(),
    )));
    assert!(failed.0.is_none());
    assert_eq!(failed.1, Some("device error".to_string()));
}

#[test]
fn test_paths_of_records() {
    let m = FileMetadata::new(1, 1, 1);
    let info = FileInfo::new("/tmp/x".to_string(), 0, &m);
    assert_eq!(info.path().as_str(), "/tmp/x");
    assert_eq!(info.into_path(), "/tmp/x");
}

#[test]
fn test_file_chunk_carries_its_fields() {
    let path = "/tmp/y".to_string();
    let chunk = FileChunk::new(&path, FilePos(16), FileLen(4096));
    assert_eq!(chunk.path.as_str(), "/tmp/y");
    assert_eq!(chunk.pos, FilePos(16));
    assert_eq!(chunk.len, FileLen(4096));
}

#[test]
fn test_error_carries_message() {
    let e = Error::new("bad configuration".to_string());
    assert_eq!(e.message, "bad configuration");
}

#[test]
fn test_ordering_is_numeric() {
    assert!(FilePos(1) < FilePos(2));
    assert!(FileLen(1) < FileLen(2));
    assert!(FileHash(1) < FileHash(2));
    assert_eq!(
        FilePos(3).partial_cmp(&FilePos(3)),
        Some(std::cmp::Ordering::Equal)
    );
}
