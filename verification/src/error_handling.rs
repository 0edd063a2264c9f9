//! Error-recovery policy types.
use vstd::prelude::*;

verus! {

/// What to do after a recoverable failure.
#[derive(Debug, Clone, Copy, PartialEq, Eq, Structural)]
pub enum RecoveryStrategy {
    /// Try again, up to a retry cap, pausing between attempts.
    Retry { max_retries: u32, delay_ms: u64 },
    /// Skip the failed work.
    Skip,
    /// Abort the run.
    Abort,
}

} // verus!
