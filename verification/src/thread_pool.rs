//! Thread-pool bookkeeping types.
use vstd::prelude::*;

verus! {

/// What a pool thread is doing.
#[derive(Debug, Clone, Copy, PartialEq, Eq, Structural)]
pub enum ThreadState {
    /// Waiting for work.
    Idle,
    /// Running a task.
    Processing,
    /// Winding down.
    ShuttingDown,
}

/// Per-thread work counters.
#[derive(Debug, Clone)]
pub struct ThreadMetrics {
    /// Tasks finished successfully.
    pub tasks_completed: usize,
    /// Tasks that failed.
    pub tasks_failed: usize,
    /// Time spent processing, in milliseconds.
    pub processing_time_ms: u64,
    /// Peak memory use, in bytes.
    pub peak_memory_bytes: u64,
}

impl Default for ThreadMetrics {
    /// Fresh, zeroed counters.
    fn default() -> (m: ThreadMetrics)
        ensures
            m.tasks_completed == 0,
            m.tasks_failed == 0,
            m.processing_time_ms == 0,
            m.peak_memory_bytes == 0,
    {
        ThreadMetrics {
            tasks_completed: 0,
            tasks_failed: 0,
            processing_time_ms: 0,
            peak_memory_bytes: 0,
        }
    }
}

/// How a thread pool is sized.
#[derive(Debug, Clone)]
pub struct ThreadPoolConfig {
    /// Number of threads.
    pub thread_count: usize,
    /// Stack size per thread, in bytes.
    pub stack_size: usize,
    /// Thread name prefix.
    pub thread_prefix: String,
    /// Most tasks one thread takes.
    pub max_tasks_per_thread: usize,
    /// Task timeout, in seconds.
    pub task_timeout_secs: u64,
}

} // verus!
