//! Analysis engine for classic (32-bit) ZIP archives: locating the
//! end-of-central-directory record, walking the central directory,
//! cross-checking local headers, verifying entry integrity, aggregating
//! statistics, and emitting a deterministic text report.
use vstd::prelude::*;

verus! {

/// Largest archive accepted: four gibibytes.
pub const MAX_SIZE: u64 = 4294967296;

/// Top-level error for archive ingestion.
#[derive(Debug, Clone)]
pub enum Error {
    /// The archive is larger than `MAX_SIZE` bytes.
    SizeLimit { size: u64 },
    /// A read failed; the payload describes the cause.
    Io(String),
    /// The archive bytes do not form a valid ZIP structure.
    Format(String),
    /// A memory budget would be exceeded.
    MemoryLimit { required: usize, limit: usize },
    /// Any other processing failure.
    Processing(String),
}

/// Checks an archive length against the size cap; the one archive-level
/// check that needs nothing but the length.
pub fn validate_size(size: u64) -> (r: Result<(), Error>)
    ensures
        r is Ok <==> size <= MAX_SIZE,
        size > MAX_SIZE ==> (r matches Err(Error::SizeLimit { size: s }) && s == size),
{
    if size > MAX_SIZE {
        Err(Error::SizeLimit { size })
    } else {
        Ok(())
    }
}

/// One member of an archive, as listed by the central directory.
#[derive(Debug, Clone)]
pub struct Entry {
    pub name: String,
    pub size: u64,
    pub compressed_size: u64,
    pub crc32: u32,
}

/// The list of members of an archive.
#[derive(Debug)]
pub struct Directory {
    pub entries: Vec<Entry>,
}

/// Sum of the stored (uncompressed) sizes of the first `n` entries.
pub open spec fn sum_sizes(s: Seq<Entry>, n: int) -> int
    decreases n,
{
    if n <= 0 {
        0
    } else {
        sum_sizes(s, n - 1) + s[n - 1].size
    }
}

/// Sum of the compressed sizes of the first `n` entries.
pub open spec fn sum_compressed(s: Seq<Entry>, n: int) -> int
    decreases n,
{
    if n <= 0 {
        0
    } else {
        sum_compressed(s, n - 1) + s[n - 1].compressed_size
    }
}

/// Partial sums of stored sizes never exceed the total.
proof fn lemma_sum_sizes_monotonic(s: Seq<Entry>, i: int, j: int)
    requires
        0 <= i <= j,
    ensures
        sum_sizes(s, i) <= sum_sizes(s, j),
    decreases j,
{
    if i < j {
        lemma_sum_sizes_monotonic(s, i, j - 1);
    }
}

/// Partial sums of compressed sizes never exceed the total.
proof fn lemma_sum_compressed_monotonic(s: Seq<Entry>, i: int, j: int)
    requires
        0 <= i <= j,
    ensures
        sum_compressed(s, i) <= sum_compressed(s, j),
    decreases j,
{
    if i < j {
        lemma_sum_compressed_monotonic(s, i, j - 1);
    }
}

impl Directory {
    /// Total stored (uncompressed) bytes over all entries.
    pub fn total_size(&self) -> (r: u64)
        requires
            sum_sizes(self.entries@, self.entries@.len() as int) <= u64::MAX,
        ensures
            r == sum_sizes(self.entries@, self.entries@.len() as int),
    {
        let n = self.entries.len();
        let mut total: u64 = 0;
        let mut i: usize = 0;
        while i < n
            invariant
                n == self.entries@.len(),
                0 <= i <= n,
                total == sum_sizes(self.entries@, i as int),
                sum_sizes(self.entries@, n as int) <= u64::MAX,
            decreases n - i,
        {
            proof {
                lemma_sum_sizes_monotonic(self.entries@, i + 1, n as int);
            }
            total = total + self.entries[i].size;
            i = i + 1;
        }
        total
    }

    /// Total compressed bytes over all entries.
    pub fn total_compressed_size(&self) -> (r: u64)
        requires
            sum_compressed(self.entries@, self.entries@.len() as int) <= u64::MAX,
        ensures
            r == sum_compressed(self.entries@, self.entries@.len() as int),
    {
        let n = self.entries.len();
        let mut total: u64 = 0;
        let mut i: usize = 0;
        while i < n
            invariant
                n == self.entries@.len(),
                0 <= i <= n,
                total == sum_compressed(self.entries@, i as int),
                sum_compressed(self.entries@, n as int) <= u64::MAX,
            decreases n - i,
        {
            proof {
                lemma_sum_compressed_monotonic(self.entries@, i + 1, n as int);
            }
            total = total + self.entries[i].compressed_size;
            i = i + 1;
        }
        total
    }

    /// Compression ratio `(1 - compressed / stored)`, in hundredths of a
    /// percent (so `5000` means `50.00%`); negative when the data expanded.
    /// Zero stored bytes yield zero, matching an incompressible archive.
    pub fn compression_ratio_hundredths(&self) -> (r: i64)
        requires
            sum_sizes(self.entries@, self.entries@.len() as int) <= u64::MAX,
            sum_compressed(self.entries@, self.entries@.len() as int) <= u64::MAX,
        ensures
            r == crate::report::ratio_hundredths(
                sum_sizes(self.entries@, self.entries@.len() as int),
                sum_compressed(self.entries@, self.entries@.len() as int),
            ),
    {
        let stored = self.total_size();
        let compressed = self.total_compressed_size();
        crate::report::compression_ratio_hundredths(stored, compressed)
    }
}

} // verus!

pub mod analyzer;
pub mod cli;
pub mod buffer;
pub mod codec;
pub mod error;
pub mod error_handling;
pub mod memory;
pub mod models;
pub mod reporter;
pub mod scheduler;
pub mod stats;
pub mod thread_pool;
pub mod types;
pub mod utils;
pub mod writer;
pub mod text;
pub mod worker;
pub mod report;
pub mod zip;
