//! Tests of the collectors and carrier types: statistics, memory
//! tracking, buffers, options, and the run state machine.
use zip_revelio::Directory;
use zip_revelio::Entry;
use zip_revelio::analyzer::zip::{step, RunAction, RunEvent, RunState};
use zip_revelio::buffer::pool::{Buffer, BufferConfig, BufferPool};
use zip_revelio::cli::Cli;
use zip_revelio::error::ZipError;
use zip_revelio::memory::MemoryTracker;
use zip_revelio::models::file_info::{CompressionMethod, ProcessingStats};
use zip_revelio::stats::{SizeRange, Stats};

#[test]
fn test_memory_tracker() {
    let mut tracker = MemoryTracker::new(1024);

    tracker.track_alloc(512).unwrap();
    assert_eq!(tracker.current_size(), 512);
    assert_eq!(tracker.peak_size(), 512);

    tracker.track_alloc(256).unwrap();
    assert_eq!(tracker.current_size(), 768);
    assert_eq!(tracker.peak_size(), 768);

    tracker.track_dealloc(512);
    assert_eq!(tracker.current_size(), 256);
    assert_eq!(tracker.peak_size(), 768);

    assert!(tracker.track_alloc(1024).is_err());
}

#[test]
fn test_processing_stats_thread_safety() {
    let mut stats = ProcessingStats::new();
    stats.increment_bytes(100);
    stats.increment_files();
    assert_eq!(stats.bytes_processed, 100);
    assert_eq!(stats.files_processed, 1);
}

#[test]
fn test_size_range() {
    assert!(matches!(SizeRange::from_size(500), SizeRange::Tiny));
    assert!(matches!(SizeRange::from_size(5000), SizeRange::Small));
    assert!(matches!(SizeRange::from_size(50000), SizeRange::Medium));
    assert!(matches!(SizeRange::from_size(500000), SizeRange::Large));
    assert!(matches!(SizeRange::from_size(5000000), SizeRange::VeryLarge));
    assert!(matches!(SizeRange::from_size(50000000), SizeRange::Huge));
}

#[test]
fn test_directory_stats() {
    let entries = vec![
        Entry {
            name: "test1.txt".to_string(),
            size: 100,
            compressed_size: 50,
            crc32: 0,
        },
        Entry {
            name: "test2.txt".to_string(),
            size: 200,
            compressed_size: 100,
            crc32: 0,
        },
    ];

    let dir = Directory { entries };
    assert_eq!(dir.total_size(), 300);
    assert_eq!(dir.total_compressed_size(), 150);
    assert_eq!(dir.compression_ratio_hundredths(), 5000);
}

#[test]
fn test_empty_directory_stats() {
    let dir = Directory { entries: vec![] };
    assert_eq!(dir.total_size(), 0);
    assert_eq!(dir.total_compressed_size(), 0);
    assert_eq!(dir.compression_ratio_hundredths(), 0);
}

#[test]
fn test_stats_collection() {
    let mut stats = Stats::new();

    stats.increment_files();
    stats.add_size(1000);
    stats.add_compressed_size(500);
    stats.record_method(CompressionMethod::Stored);
    stats.update_memory_usage(1024 * 1024);

    assert_eq!(stats.total_files(), 1);
    assert_eq!(stats.total_size(), 1000);
    assert_eq!(stats.compressed_size(), 500);
    assert_eq!(stats.compression_ratio_hundredths(), 5000);
    assert_eq!(stats.peak_memory_usage(), 1024 * 1024);
}

#[test]
fn test_size_distribution() {
    let mut stats = Stats::new();

    stats.add_size(500);
    stats.add_size(5_000);
    stats.add_size(50_000);
    stats.add_size(500_000);
    stats.add_size(5_000_000);
    stats.add_size(50_000_000);

    let distribution = stats.size_distribution();
    assert_eq!(distribution.len(), 6);
    let count_of = |r: SizeRange| -> usize {
        distribution.iter().find(|(k, _)| *k == r).map(|(_, v)| *v).unwrap()
    };
    assert_eq!(count_of(SizeRange::Tiny), 1);
    assert_eq!(count_of(SizeRange::Small), 1);
    assert_eq!(count_of(SizeRange::Medium), 1);
    assert_eq!(count_of(SizeRange::Large), 1);
    assert_eq!(count_of(SizeRange::VeryLarge), 1);
    assert_eq!(count_of(SizeRange::Huge), 1);
}

#[test]
fn test_summary_generation() {
    let mut stats = Stats::new();
    stats.increment_files();
    stats.add_size(1000);
    stats.add_compressed_size(500);
    stats.record_method(CompressionMethod::Stored);

    let summary = stats.generate_summary();
    assert!(summary.contains("Total Files: 1"));
    assert!(summary.contains("Compression Ratio: 50.00%"));
    assert!(summary.contains("  Stored: 1 files"));
    assert!(summary.contains("  0-1KB: 1 files"));
}

#[test]
fn summary_lists_error_labels() {
    let mut stats = Stats::new();
    stats.record_error(ZipError::InvalidSignature(0));
    let summary = stats.generate_summary();
    assert!(summary.contains("Errors:"));
    assert!(summary.contains("  Invalid ZIP signature"));
}

fn cli_for_tests() -> Cli {
    Cli {
        input: "test.zip".to_string(),
        output: "report.txt".to_string(),
        threads: Some(4),
        buffer_size: Some(128),
        no_progress: false,
        verbose: false,
        max_memory: 2048,
        methods: Some(vec!["store".to_string()]),
        detailed: false,
    }
}

#[test]
fn test_validation() {
    let cli = cli_for_tests();
    assert!(cli.validate(true, true).is_ok());

    let mut invalid = cli.clone();
    invalid.threads = Some(0);
    assert!(invalid.validate(true, true).is_err());

    let mut invalid = cli.clone();
    invalid.buffer_size = Some(0);
    assert!(invalid.validate(true, true).is_err());

    let mut invalid = cli.clone();
    invalid.max_memory = 0;
    assert!(invalid.validate(true, true).is_err());

    let mut invalid = cli;
    invalid.methods = Some(vec!["invalid".to_string()]);
    assert!(invalid.validate(true, true).is_err());

    let missing = cli_for_tests();
    assert!(missing.validate(false, true).is_err());
    assert!(missing.validate(true, false).is_err());
}

#[test]
fn test_buffer_validation() {
    let mut pool = BufferPool::new(BufferConfig::default()).unwrap();

    let small = pool.acquire(1024).unwrap();
    assert!(small.validate_memory().is_ok());

    let medium = pool.acquire(100_000).unwrap();
    assert!(medium.validate_memory().is_ok());
}

#[test]
fn test_buffer_reuse() {
    let mut pool = BufferPool::new(BufferConfig::default()).unwrap();

    let buf1 = pool.acquire(1024).unwrap();
    assert!(matches!(buf1, Buffer::Small(_)));
    pool.release(buf1);

    let buf2 = pool.acquire(1024).unwrap();
    assert!(matches!(buf2, Buffer::Small(_)));
}

#[test]
fn buffer_pool_respects_budget() {
    let config = BufferConfig {
        small_size: 16,
        medium_size: 32,
        small_count: 2,
        medium_count: 1,
    };
    let mut pool = BufferPool::new(config).unwrap();
    assert_eq!(pool.budget(), 16 * 2 + 32);
    assert_eq!(pool.outstanding(), 0);

    let a = pool.acquire(10).unwrap();
    let b = pool.acquire(10).unwrap();
    assert_eq!(pool.outstanding(), 32);
    assert!(pool.outstanding() <= pool.budget());

    // The small tier is dry now.
    assert!(matches!(pool.acquire(10), Err(ZipError::NoBufferAvailable)));

    // A large request beyond the remaining budget is refused.
    assert!(matches!(pool.acquire(1000), Err(ZipError::MemoryLimit(_))));

    pool.release(a);
    pool.release(b);
    assert_eq!(pool.outstanding(), 0);

    // With the budget free again, a large lease fits after the pooled
    // slots are accounted for.
    let mut empty_pool = BufferPool::new(BufferConfig {
        small_size: 1,
        medium_size: 2,
        small_count: 0,
        medium_count: 0,
    })
    .unwrap();
    assert!(matches!(empty_pool.acquire(3), Err(ZipError::MemoryLimit(_))));
}

#[test]
fn buffer_copy_roundtrip() {
    let mut pool = BufferPool::new(BufferConfig::default()).unwrap();
    let mut buf = pool.acquire(64).unwrap();
    buf.copy_from_slice(b"payload");
    assert_eq!(buf.as_slice(), &b"payload"[..]);
    assert!(buf.validate_memory().is_ok());
}

#[test]
fn run_machine_walks_to_completion() {
    let (st, act) = step(RunState::Idle, RunEvent::Started);
    assert_eq!(st, RunState::Parsing);
    assert_eq!(act, RunAction::Parse);

    let (st, act) = step(st, RunEvent::Parsed(2));
    assert_eq!(st, RunState::Decoding { next: 0, total: 2 });
    assert_eq!(act, RunAction::Decode(0));

    let (st, act) = step(st, RunEvent::EntryDone);
    assert_eq!(st, RunState::Decoding { next: 1, total: 2 });
    assert_eq!(act, RunAction::Decode(1));

    let (st, act) = step(st, RunEvent::EntryDone);
    assert_eq!(st, RunState::Complete);
    assert_eq!(act, RunAction::Emit);
}

#[test]
fn run_machine_empty_archive_completes() {
    let (st, _) = step(RunState::Idle, RunEvent::Started);
    let (st, act) = step(st, RunEvent::Parsed(0));
    assert_eq!(st, RunState::Complete);
    assert_eq!(act, RunAction::Emit);
}

#[test]
fn cancellation_stops_all_work() {
    let (st, act) = step(
        RunState::Decoding { next: 1, total: 9 },
        RunEvent::CancelRequested,
    );
    assert_eq!(st, RunState::Cancelled);
    assert_eq!(act, RunAction::Rest);

    // A cancelled run never hands out work again, whatever arrives.
    let (st, act) = step(st, RunEvent::EntryDone);
    assert_eq!(st, RunState::Cancelled);
    assert_eq!(act, RunAction::Rest);
    let (st, act) = step(st, RunEvent::Parsed(5));
    assert_eq!(st, RunState::Cancelled);
    assert_eq!(act, RunAction::Rest);
}

use zip_revelio::zip::entry::{LocalFileHeader, ZipEntry};
use zip_revelio::zip::error::ZipError as MemberError;

fn stored_entry(name: &str, payload: &[u8], crc: u32) -> ZipEntry {
    ZipEntry {
        header: LocalFileHeader {
            version_needed: 20,
            flags: 0,
            compression_method: 0,
            last_mod_time: 0,
            last_mod_date: 0,
            crc32: crc,
            compressed_size: payload.len() as u64,
            uncompressed_size: payload.len() as u64,
            file_name: name.to_string(),
            extra_field: Vec::new(),
        },
        data_descriptor: None,
        file_data: payload.to_vec(),
    }
}

#[test]
fn zip_entry_process_store() {
    let mut pool = BufferPool::new(BufferConfig::default()).unwrap();
    let mut buffer = pool.acquire(1024).unwrap();
    let crc = crc32fast::hash(b"Hello, World!");
    let entry = stored_entry("test.txt", b"Hello, World!", crc);

    let processed = entry.process(&mut buffer).unwrap();
    assert_eq!(processed.name, "test.txt");
    assert_eq!(processed.crc32, crc);
    assert_eq!(processed.original_size, 13);
    assert_eq!(buffer.as_slice(), &b"Hello, World!"[..]);
}

#[test]
fn zip_entry_process_deflate() {
    let mut pool = BufferPool::new(BufferConfig::default()).unwrap();
    let mut buffer = pool.acquire(1024).unwrap();
    let payload = b"the quick brown fox jumps over the lazy dog";
    let mut enc = flate2::write::DeflateEncoder::new(Vec::new(), flate2::Compression::default());
    std::io::Write::write_all(&mut enc, payload).unwrap();
    let comp = enc.finish().unwrap();

    let mut entry = stored_entry("fox.txt", &comp, crc32fast::hash(payload));
    entry.header.compression_method = 8;
    entry.header.uncompressed_size = payload.len() as u64;

    let processed = entry.process(&mut buffer).unwrap();
    assert_eq!(processed.method, 8);
    assert_eq!(buffer.as_slice(), &payload[..]);
}

#[test]
fn zip_entry_rejects_bad_claims() {
    let mut pool = BufferPool::new(BufferConfig::default()).unwrap();
    let mut buffer = pool.acquire(1024).unwrap();

    let corrupted = stored_entry("test.txt", b"Hello, World!", 0);
    assert!(matches!(
        corrupted.process(&mut buffer),
        Err(MemberError::Crc32Mismatch)
    ));

    // An unsupported method is named in the error, and the member's
    // bytes are never decoded into the buffer.
    let mut unsupported = stored_entry("test.txt", b"", 0);
    unsupported.header.compression_method = 12;
    assert!(matches!(
        unsupported.validate(),
        Err(MemberError::UnsupportedMethod(12))
    ));
    assert!(matches!(
        unsupported.process(&mut buffer),
        Err(MemberError::UnsupportedMethod(12))
    ));

    // A Store member whose sizes disagree fails before any byte moves.
    let mut lopsided = stored_entry("test.txt", b"abc", crc32fast::hash(b"abc"));
    lopsided.header.compressed_size = 2;
    assert!(matches!(
        lopsided.process(&mut buffer),
        Err(MemberError::SizeMismatch)
    ));

    // A Store member whose byte count differs from the claimed stored
    // size fails the same way.
    let mut short = stored_entry("test.txt", b"abc", crc32fast::hash(b"abc"));
    short.header.compressed_size = 4;
    short.header.uncompressed_size = 4;
    assert!(matches!(
        short.process(&mut buffer),
        Err(MemberError::SizeMismatch)
    ));

    // A Deflate member that inflates to the wrong length fails too.
    let payload = b"deflate me";
    let mut enc = flate2::write::DeflateEncoder::new(Vec::new(), flate2::Compression::default());
    std::io::Write::write_all(&mut enc, payload).unwrap();
    let comp = enc.finish().unwrap();
    let mut wrong_len = stored_entry("test.txt", &comp, crc32fast::hash(payload));
    wrong_len.header.compression_method = 8;
    wrong_len.header.uncompressed_size = payload.len() as u64 + 1;
    assert!(matches!(
        wrong_len.process(&mut buffer),
        Err(MemberError::SizeMismatch)
    ));

    // Only a NUL character invalidates a name; any other name is
    // reported verbatim.
    let nul_name = stored_entry("bad\u{0000}name", b"", 0);
    assert!(matches!(nul_name.validate(), Err(MemberError::InvalidName)));
    let nonascii = stored_entry("caf\u{00E9}.txt", b"", 0);
    assert!(nonascii.validate().is_ok());
}

#[test]
fn expansion_yields_negative_ratio() {
    let dir = Directory {
        entries: vec![Entry {
            name: "grew.bin".to_string(),
            size: 100,
            compressed_size: 150,
            crc32: 0,
        }],
    };
    // The data expanded by half, so the ratio is minus fifty percent.
    assert_eq!(dir.compression_ratio_hundredths(), -5000);
}

#[test]
fn backpressure_follows_free_budget() {
    let config = BufferConfig {
        small_size: 4,
        medium_size: 8,
        small_count: 1,
        medium_count: 1,
    };
    let mut pool = BufferPool::new(config).unwrap();
    // Budget 12, nothing outstanding: free budget exceeds one medium
    // buffer.
    assert!(pool.can_admit());
    let _a = pool.acquire(4).unwrap();
    let _b = pool.acquire(8).unwrap();
    // Everything is on loan now.
    assert!(!pool.can_admit());
}

#[test]
fn large_buffers_fit_under_an_explicit_budget() {
    let config = BufferConfig {
        small_size: 4,
        medium_size: 8,
        small_count: 1,
        medium_count: 1,
    };
    let mut pool = BufferPool::with_budget(config, 1024).unwrap();
    assert_eq!(pool.budget(), 1024);

    let big = pool.acquire(100).unwrap();
    assert!(matches!(big, Buffer::Large(_)));
    assert_eq!(pool.outstanding(), 100);
    assert!(pool.outstanding() <= pool.budget());

    // Beyond the remaining headroom the pool refuses.
    assert!(matches!(pool.acquire(2000), Err(ZipError::MemoryLimit(_))));

    if let Buffer::Large(id) = &big {
        pool.release_large_buffer(*id);
    }
    assert_eq!(pool.outstanding(), 0);
    // Returning the same ticket twice changes nothing more.
    if let Buffer::Large(id) = &big {
        pool.release_large_buffer(*id);
    }
    assert_eq!(pool.outstanding(), 0);
}
