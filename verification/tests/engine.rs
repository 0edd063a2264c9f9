//! End-to-end tests of the archive engine: the locator, the
//! central-directory walk, per-member verification, and the report.
use zip_revelio::MAX_SIZE;
use zip_revelio::analyzer::{analyze, check_archive_size, AnalyzeOptions};
use zip_revelio::validate_size;
use zip_revelio::worker::{EntryStatus, FailKind, SkipKind};
use zip_revelio::zip::reader::{locate_eocd, parse_central_directory, ArchiveError};

fn le16(v: u16) -> [u8; 2] {
    v.to_le_bytes()
}

fn le32(v: u32) -> [u8; 4] {
    v.to_le_bytes()
}

struct Member {
    name: Vec<u8>,
    flags: u16,
    method: u16,
    crc: u32,
    comp: Vec<u8>,
    uncomp_size: u32,
}

/// Builds a classic archive: local headers with data, the central
/// directory, and the end record, plus an archive comment.
fn build_zip(members: &[Member], comment: &[u8]) -> Vec<u8> {
    let mut out: Vec<u8> = Vec::new();
    let mut offsets: Vec<u32> = Vec::new();
    for m in members {
        offsets.push(out.len() as u32);
        out.extend_from_slice(&le32(0x04034b50));
        out.extend_from_slice(&le16(20)); // version needed
        out.extend_from_slice(&le16(m.flags));
        out.extend_from_slice(&le16(m.method));
        out.extend_from_slice(&le16(0)); // time
        out.extend_from_slice(&le16(0)); // date
        out.extend_from_slice(&le32(m.crc));
        out.extend_from_slice(&le32(m.comp.len() as u32));
        out.extend_from_slice(&le32(m.uncomp_size));
        out.extend_from_slice(&le16(m.name.len() as u16));
        out.extend_from_slice(&le16(0)); // extra
        out.extend_from_slice(&m.name);
        out.extend_from_slice(&m.comp);
    }
    let cd_offset = out.len() as u32;
    for (i, m) in members.iter().enumerate() {
        out.extend_from_slice(&le32(0x02014b50));
        out.extend_from_slice(&le16(20)); // version made by
        out.extend_from_slice(&le16(20)); // version needed
        out.extend_from_slice(&le16(m.flags));
        out.extend_from_slice(&le16(m.method));
        out.extend_from_slice(&le16(0)); // time
        out.extend_from_slice(&le16(0)); // date
        out.extend_from_slice(&le32(m.crc));
        out.extend_from_slice(&le32(m.comp.len() as u32));
        out.extend_from_slice(&le32(m.uncomp_size));
        out.extend_from_slice(&le16(m.name.len() as u16));
        out.extend_from_slice(&le16(0)); // extra
        out.extend_from_slice(&le16(0)); // comment
        out.extend_from_slice(&le16(0)); // disk
        out.extend_from_slice(&le16(0)); // internal attrs
        out.extend_from_slice(&le32(0)); // external attrs
        out.extend_from_slice(&le32(offsets[i]));
        out.extend_from_slice(&m.name);
    }
    let cd_size = out.len() as u32 - cd_offset;
    out.extend_from_slice(&le32(0x06054b50));
    out.extend_from_slice(&le16(0)); // disk
    out.extend_from_slice(&le16(0)); // cd disk
    out.extend_from_slice(&le16(members.len() as u16));
    out.extend_from_slice(&le16(members.len() as u16));
    out.extend_from_slice(&le32(cd_size));
    out.extend_from_slice(&le32(cd_offset));
    out.extend_from_slice(&le16(comment.len() as u16));
    out.extend_from_slice(comment);
    out
}

fn opts() -> AnalyzeOptions {
    AnalyzeOptions { allow_store: true, allow_deflate: true, detailed: true }
}

fn store_member(name: &str, payload: &[u8], crc: u32) -> Member {
    Member {
        name: name.as_bytes().to_vec(),
        flags: 0,
        method: 0,
        crc,
        comp: payload.to_vec(),
        uncomp_size: payload.len() as u32,
    }
}

#[test]
fn single_stored_entry() {
    let data = build_zip(&[store_member("hello.txt", b"Hello, World!", 0xEC4AC3D0)], b"");
    let a = analyze(&data, 0, "in.zip", &opts()).unwrap();
    assert_eq!(a.entry_count, 1);
    assert_eq!(a.totals.files, 1);
    assert_eq!(a.totals.stored, 13);
    assert_eq!(a.totals.compressed, 13);
    assert_eq!(a.totals.passed, 1);
    assert_eq!(a.totals.failed, 0);
    assert_eq!(a.histogram, vec![(0u16, 1u64)]);
    assert_eq!(a.buckets.b1k, 1);
    assert_eq!(a.buckets.b10k, 0);
    assert_eq!(a.buckets.b100k, 0);
    assert_eq!(a.buckets.b1m, 0);
    assert_eq!(a.buckets.b10m, 0);
    assert_eq!(a.buckets.huge, 0);
    assert_eq!(a.results[0].name, "hello.txt");
    assert!(matches!(a.results[0].status, EntryStatus::Passed));
    assert_eq!(a.results[0].crc_observed, Some(0xEC4AC3D0));
    assert_eq!(a.results[0].size_observed, Some(13));
    assert!(a.report.contains("Entries: 1\n"));
    assert!(a.report.contains("Total stored bytes: 13\n"));
    assert!(a.report.contains("Total compressed bytes: 13\n"));
    assert!(a.report.contains("Compression ratio: 0.00%\n"));
    assert!(a.report.contains("0: 1\n"));
    assert!(a.report.contains("<=1KiB: 1\n"));
    assert!(a.report.contains("hello.txt\t13\t13\t0\tEC4AC3D0\tOk\n"));
}

#[test]
fn single_deflate_entry() {
    let payload: Vec<u8> = std::iter::repeat(b'a').take(1024).collect();
    let crc = crc32fast::hash(&payload);
    let mut enc = flate2::write::DeflateEncoder::new(Vec::new(), flate2::Compression::default());
    std::io::Write::write_all(&mut enc, &payload).unwrap();
    let comp = enc.finish().unwrap();
    assert!(comp.len() < 1024);
    let m = Member {
        name: b"a.bin".to_vec(),
        flags: 0,
        method: 8,
        crc,
        comp,
        uncomp_size: 1024,
    };
    let data = build_zip(&[m], b"");
    let a = analyze(&data, 0, "in.zip", &opts()).unwrap();
    assert_eq!(a.entry_count, 1);
    assert_eq!(a.histogram, vec![(8u16, 1u64)]);
    assert_eq!(a.totals.passed, 1);
    assert_eq!(a.totals.failed, 0);
    assert!(matches!(a.results[0].status, EntryStatus::Passed));
    assert_eq!(a.results[0].size_observed, Some(1024));
    assert_eq!(a.results[0].crc_observed, Some(crc));
}

#[test]
fn crc_mismatch_is_entry_level() {
    let data = build_zip(&[store_member("hello.txt", b"Hello, World!", 0x00000000)], b"");
    let a = analyze(&data, 0, "in.zip", &opts()).unwrap();
    assert_eq!(a.entry_count, 1);
    assert_eq!(a.totals.stored, 13);
    assert_eq!(a.totals.compressed, 13);
    assert_eq!(a.totals.failed, 1);
    assert_eq!(a.results[0].name, "hello.txt");
    assert!(matches!(a.results[0].status, EntryStatus::Failed(FailKind::CrcMismatch)));
}

#[test]
fn unsupported_method_is_skipped() {
    let m = Member {
        name: b"weird.bz2".to_vec(),
        flags: 0,
        method: 12,
        crc: 0,
        comp: Vec::new(),
        uncomp_size: 0,
    };
    let data = build_zip(&[m], b"");
    let a = analyze(&data, 0, "in.zip", &opts()).unwrap();
    assert_eq!(a.entry_count, 1);
    assert_eq!(a.histogram, vec![(12u16, 1u64)]);
    assert_eq!(a.totals.skipped, 1);
    assert!(matches!(
        a.results[0].status,
        EntryStatus::Skipped(SkipKind::UnsupportedMethod(12))
    ));
    assert_eq!(a.results[0].crc_observed, None);
    assert_eq!(a.results[0].size_observed, None);
}

#[test]
fn truncated_cd_is_archive_level() {
    let mut data = build_zip(&[store_member("hello.txt", b"Hello, World!", 0xEC4AC3D0)], b"");
    // The record's declared name length would cross the end of the
    // central directory.
    let cd_offset = u32::from_le_bytes([
        data[data.len() - 6],
        data[data.len() - 5],
        data[data.len() - 4],
        data[data.len() - 3],
    ]) as usize;
    let name_len_pos = cd_offset + 28;
    data[name_len_pos] = 0xFF;
    data[name_len_pos + 1] = 0x7F;
    let err = analyze(&data, 0, "in.zip", &opts()).unwrap_err();
    match err {
        ArchiveError::ArchiveMalformed { reason } => assert_eq!(reason, "CD entry truncated"),
        other => panic!("wrong error: {:?}", other),
    }
}

#[test]
fn oversize_archive_is_rejected() {
    let err = check_archive_size(4294967297).unwrap_err();
    match err {
        ArchiveError::SizeLimit { size } => assert_eq!(size, 4294967297),
        other => panic!("wrong error: {:?}", other),
    }
    assert!(check_archive_size(MAX_SIZE).is_ok());
    assert!(matches!(
        validate_size(4294967297),
        Err(zip_revelio::Error::SizeLimit { size: 4294967297 })
    ));
}

#[test]
fn eocd_found_with_maximal_comment() {
    let comment = vec![b'x'; 65535];
    let data = build_zip(&[], &comment);
    let e = locate_eocd(&data).unwrap();
    assert_eq!(e.total_entries, 0);
    assert_eq!(e.comment_len, 65535);
}

#[test]
fn eocd_found_without_comment() {
    let data = build_zip(&[], b"");
    let e = locate_eocd(&data).unwrap();
    assert_eq!(e.total_entries, 0);
    assert_eq!(e.cd_size, 0);
}

#[test]
fn empty_archive_yields_empty_list_and_report() {
    let data = build_zip(&[], b"");
    let a = analyze(&data, 0, "in.zip", &opts()).unwrap();
    assert_eq!(a.entry_count, 0);
    assert!(a.results.is_empty());
    assert!(a.histogram.is_empty());
    assert!(a.report.contains("Entries: 0\n"));
    assert!(a.report.contains("Total stored bytes: 0\n"));
}

#[test]
fn entry_count_cap_is_enforced() {
    // Exactly the most records the classic format can declare.
    let mut members: Vec<Member> = Vec::new();
    for _ in 0..65535 {
        members.push(Member {
            name: Vec::new(),
            flags: 0,
            method: 12,
            crc: 0,
            comp: Vec::new(),
            uncomp_size: 0,
        });
    }
    let data = build_zip(&members, b"");
    let e = locate_eocd(&data).unwrap();
    let cd = &data[e.cd_offset as usize..(e.cd_offset + e.cd_size) as usize];
    let entries = parse_central_directory(cd, e.total_entries).unwrap();
    assert_eq!(entries.len(), 65535);

    // One record more than declared must be rejected: that is ZIP64
    // territory.
    let mut extra = data.clone();
    let eocd_start = extra.len() - 22;
    let one_record: Vec<u8> = extra[e.cd_offset as usize..e.cd_offset as usize + 46].to_vec();
    extra.splice(eocd_start..eocd_start, one_record);
    let cd_size = e.cd_size + 46;
    let len = extra.len();
    extra[len - 10..len - 6].copy_from_slice(&le32(cd_size));
    let e2 = locate_eocd(&extra).unwrap();
    let cd2 = &extra[e2.cd_offset as usize..(e2.cd_offset as u64 + cd_size as u64) as usize];
    let err = parse_central_directory(cd2, e2.total_entries).unwrap_err();
    assert!(matches!(err, ArchiveError::ArchiveMalformed { .. }));
}

#[test]
fn eocd_comment_length_disambiguates() {
    // The comment embeds bytes shaped like an end record; the declared
    // comment length only matches at the real record.
    let mut fake = Vec::new();
    fake.extend_from_slice(&le32(0x06054b50));
    fake.extend_from_slice(&[0u8; 16]);
    fake.extend_from_slice(&le16(0));
    fake.extend_from_slice(b"garbage");
    let data = build_zip(&[store_member("a.txt", b"hi", crc32fast::hash(b"hi"))], &fake);
    let e = locate_eocd(&data).unwrap();
    assert_eq!(e.total_entries, 1);
    assert_eq!(e.comment_len as usize, fake.len());
}

#[test]
fn trailing_comment_byte_is_accepted() {
    // One byte follows the fixed record, and the record declares it as
    // its comment.
    let data = build_zip(&[], b"x");
    let e = locate_eocd(&data).unwrap();
    assert_eq!(e.comment_len, 1);
}

#[test]
fn missing_eocd_is_reported() {
    let data = vec![0u8; 100];
    let err = analyze(&data, 0, "in.zip", &opts()).unwrap_err();
    match err {
        ArchiveError::ArchiveMalformed { reason } => assert_eq!(reason, "EOCD not found"),
        other => panic!("wrong error: {:?}", other),
    }
}

#[test]
fn reports_are_byte_identical_across_runs() {
    let data = build_zip(
        &[
            store_member("b.txt", b"second", crc32fast::hash(b"second")),
            store_member("a.txt", b"first", crc32fast::hash(b"first")),
        ],
        b"",
    );
    let r1 = analyze(&data, 7, "in.zip", &opts()).unwrap().report;
    let r2 = analyze(&data, 7, "in.zip", &opts()).unwrap().report;
    assert_eq!(r1, r2);
    // And the detail section is sorted by name.
    let pos_a = r1.find("a.txt").unwrap();
    let pos_b = r1.find("b.txt").unwrap();
    assert!(pos_a < pos_b);
}

#[test]
fn method_filter_skips_before_decode() {
    let data = build_zip(&[store_member("hello.txt", b"Hello, World!", 0xEC4AC3D0)], b"");
    let only_deflate = AnalyzeOptions { allow_store: false, allow_deflate: true, detailed: false };
    let a = analyze(&data, 0, "in.zip", &only_deflate).unwrap();
    assert!(matches!(a.results[0].status, EntryStatus::Skipped(SkipKind::Filtered)));
}

#[test]
fn nul_in_name_is_invalid() {
    let m = Member {
        name: b"bad\0name".to_vec(),
        flags: 0,
        method: 0,
        crc: 0,
        comp: Vec::new(),
        uncomp_size: 0,
    };
    let data = build_zip(&[m], b"");
    let a = analyze(&data, 0, "in.zip", &opts()).unwrap();
    assert!(matches!(a.results[0].status, EntryStatus::Failed(FailKind::InvalidName)));
}

#[test]
fn utf8_names_follow_flag_bit_eleven() {
    let name = "caf\u{00E9}.txt";
    let m = Member {
        name: name.as_bytes().to_vec(),
        flags: 0x0800,
        method: 0,
        crc: crc32fast::hash(b"x"),
        comp: b"x".to_vec(),
        uncomp_size: 1,
    };
    let data = build_zip(&[m], b"");
    let a = analyze(&data, 0, "in.zip", &opts()).unwrap();
    assert_eq!(a.results[0].name, name);
}

#[test]
fn cp437_names_decode_without_flag_bit_eleven() {
    // 0x82 is e-acute in CP437.
    let m = Member {
        name: vec![b'c', b'a', b'f', 0x82],
        flags: 0,
        method: 0,
        crc: crc32fast::hash(b"x"),
        comp: b"x".to_vec(),
        uncomp_size: 1,
    };
    let data = build_zip(&[m], b"");
    let a = analyze(&data, 0, "in.zip", &opts()).unwrap();
    assert_eq!(a.results[0].name, "caf\u{00E9}");
}

#[test]
fn deflate_garbage_is_a_decode_error() {
    let m = Member {
        name: b"bad.bin".to_vec(),
        flags: 0,
        method: 8,
        crc: 0,
        comp: vec![0xFF, 0xFF, 0xFF, 0xFF, 0xFF],
        uncomp_size: 10,
    };
    let data = build_zip(&[m], b"");
    let a = analyze(&data, 0, "in.zip", &opts()).unwrap();
    assert!(matches!(a.results[0].status, EntryStatus::Failed(FailKind::DecodeError)));
}

#[test]
fn deflate_size_mismatch_is_reported() {
    let payload = b"some payload bytes";
    let mut enc = flate2::write::DeflateEncoder::new(Vec::new(), flate2::Compression::default());
    std::io::Write::write_all(&mut enc, payload).unwrap();
    let comp = enc.finish().unwrap();
    let m = Member {
        name: b"short.bin".to_vec(),
        flags: 0,
        method: 8,
        crc: crc32fast::hash(payload),
        comp,
        uncomp_size: 0, // claims zero stored bytes
    };
    let data = build_zip(&[m], b"");
    let a = analyze(&data, 0, "in.zip", &opts()).unwrap();
    assert!(matches!(a.results[0].status, EntryStatus::Failed(FailKind::SizeMismatch)));
}

#[test]
fn store_size_mismatch_is_reported() {
    let mut m = store_member("odd.txt", b"abc", crc32fast::hash(b"abc"));
    m.uncomp_size = 4;
    let data = build_zip(&[m], b"");
    let a = analyze(&data, 0, "in.zip", &opts()).unwrap();
    assert!(matches!(a.results[0].status, EntryStatus::Failed(FailKind::SizeMismatch)));
}

#[test]
fn lfh_disagreement_is_entry_level() {
    let mut data = build_zip(&[store_member("hello.txt", b"Hello, World!", 0xEC4AC3D0)], b"");
    // Corrupt the local header's CRC field only; bit 3 is clear, so the
    // copies must agree.
    data[14] ^= 0xFF;
    let a = analyze(&data, 0, "in.zip", &opts()).unwrap();
    assert!(matches!(
        a.results[0].status,
        EntryStatus::Failed(FailKind::Inconsistent(_))
    ));
}

#[test]
fn lfh_zeros_allowed_under_bit_three() {
    let payload = b"Hello, World!";
    let mut m = store_member("hello.txt", payload, 0xEC4AC3D0);
    m.flags = 0x0008;
    let mut data = build_zip(&[m], b"");
    // Zero the local header's CRC and size fields, as writers with the
    // data-descriptor flag do; the central directory stays
    // authoritative.
    for i in 14..26 {
        data[i] = 0;
    }
    let a = analyze(&data, 0, "in.zip", &opts()).unwrap();
    assert!(matches!(a.results[0].status, EntryStatus::Passed));
}

#[test]
fn lfh_bad_signature_aborts() {
    let mut data = build_zip(&[store_member("hello.txt", b"Hello, World!", 0xEC4AC3D0)], b"");
    data[0] = 0;
    let err = analyze(&data, 0, "in.zip", &opts()).unwrap_err();
    match err {
        ArchiveError::ArchiveMalformed { reason } => assert_eq!(reason, "LFH signature wrong"),
        other => panic!("wrong error: {:?}", other),
    }
}

#[test]
fn histogram_is_ordered_by_method_code() {
    let payload = b"xy";
    let mut enc = flate2::write::DeflateEncoder::new(Vec::new(), flate2::Compression::default());
    std::io::Write::write_all(&mut enc, payload).unwrap();
    let comp = enc.finish().unwrap();
    let deflated = Member {
        name: b"z.bin".to_vec(),
        flags: 0,
        method: 8,
        crc: crc32fast::hash(payload),
        comp,
        uncomp_size: 2,
    };
    let data = build_zip(
        &[
            deflated,
            store_member("a.txt", b"hi", crc32fast::hash(b"hi")),
            store_member("b.txt", b"ho", crc32fast::hash(b"ho")),
        ],
        b"",
    );
    let a = analyze(&data, 0, "in.zip", &opts()).unwrap();
    assert_eq!(a.histogram, vec![(0u16, 2u64), (8u16, 1u64)]);
}
