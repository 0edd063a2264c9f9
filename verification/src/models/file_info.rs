//! Per-member metadata and the running counters of a processing pass.
use vstd::prelude::*;

verus! {

/// How a member's bytes are compressed.
#[derive(Debug, Clone, Copy, PartialEq, Eq, Hash, Structural)]
pub enum CompressionMethod {
    /// Method 0: no compression.
    Stored,
    /// Method 8: deflate.
    Deflated,
    /// Any other method code.
    Other(u16),
}

/// The method a raw code denotes.
pub open spec fn method_of_code(value: u16) -> CompressionMethod {
    if value == 0 {
        CompressionMethod::Stored
    } else if value == 8 {
        CompressionMethod::Deflated
    } else {
        CompressionMethod::Other(value)
    }
}

impl CompressionMethod {
    /// Classifies a raw method code.
    pub fn from_code(value: u16) -> (r: CompressionMethod)
        ensures
            r == method_of_code(value),
    {
        match value {
            0 => CompressionMethod::Stored,
            8 => CompressionMethod::Deflated,
            other => CompressionMethod::Other(other),
        }
    }
}

/// Counters kept while members are processed.
#[derive(Debug)]
pub struct ProcessingStats {
    /// Bytes handled so far.
    pub bytes_processed: u64,
    /// Members handled so far.
    pub files_processed: usize,
    /// Failures seen so far.
    pub errors_encountered: usize,
}

impl ProcessingStats {
    /// Fresh, zeroed counters.
    pub fn new() -> (s: ProcessingStats)
        ensures
            s.bytes_processed == 0,
            s.files_processed == 0,
            s.errors_encountered == 0,
    {
        ProcessingStats { bytes_processed: 0, files_processed: 0, errors_encountered: 0 }
    }

    /// Adds processed bytes.
    pub fn increment_bytes(&mut self, bytes: u64)
        requires
            old(self).bytes_processed + bytes <= u64::MAX,
        ensures
            final(self).bytes_processed == old(self).bytes_processed + bytes,
            final(self).files_processed == old(self).files_processed,
            final(self).errors_encountered == old(self).errors_encountered,
    {
        self.bytes_processed = self.bytes_processed + bytes;
    }

    /// Counts one more processed member.
    pub fn increment_files(&mut self)
        requires
            old(self).files_processed < usize::MAX,
        ensures
            final(self).files_processed == old(self).files_processed + 1,
            final(self).bytes_processed == old(self).bytes_processed,
            final(self).errors_encountered == old(self).errors_encountered,
    {
        self.files_processed = self.files_processed + 1;
    }

    /// Counts one more failure.
    pub fn increment_errors(&mut self)
        requires
            old(self).errors_encountered < usize::MAX,
        ensures
            final(self).errors_encountered == old(self).errors_encountered + 1,
            final(self).bytes_processed == old(self).bytes_processed,
            final(self).files_processed == old(self).files_processed,
    {
        self.errors_encountered = self.errors_encountered + 1;
    }
}

} // verus!
