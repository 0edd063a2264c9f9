//! Run-level analysis statistics.
use vstd::prelude::*;

verus! {

/// Statistics of one whole analysis run.
#[derive(Debug)]
pub struct AnalysisStats {
    /// How long the run took, in milliseconds.
    pub duration_ms: u64,
    /// Chunks handled.
    pub chunks_processed: usize,
    /// Failures recorded.
    pub error_count: usize,
    /// Peak memory use, in MiB.
    pub peak_memory_mb: usize,
}

impl AnalysisStats {
    /// Fresh, zeroed statistics.
    pub fn new() -> (s: AnalysisStats)
        ensures
            s.duration_ms == 0,
            s.chunks_processed == 0,
            s.error_count == 0,
            s.peak_memory_mb == 0,
    {
        AnalysisStats { duration_ms: 0, chunks_processed: 0, error_count: 0, peak_memory_mb: 0 }
    }
}

} // verus!
