//! Task-scheduling configuration.
use vstd::prelude::*;

verus! {

/// Task priority levels, lowest first.
#[derive(Debug, Clone, Copy, PartialEq, Eq, PartialOrd, Ord, Hash, Structural)]
pub enum Priority {
    Low,
    Normal,
    High,
    Critical,
}

/// How the scheduler is sized.
#[derive(Debug, Clone)]
pub struct SchedulerConfig {
    /// Most tasks run at once.
    pub max_concurrent: usize,
    /// Default task timeout, in milliseconds.
    pub default_timeout_ms: u64,
    /// Queue capacity.
    pub queue_capacity: usize,
    /// Whether tasks may be preempted.
    pub enable_preemption: bool,
}

impl SchedulerConfig {
    /// The stock configuration for a machine with the given
    /// parallelism: a minute's timeout and a ten-thousand-task queue.
    pub fn with_parallelism(max_concurrent: usize) -> (c: SchedulerConfig)
        ensures
            c.max_concurrent == max_concurrent,
            c.default_timeout_ms == 60000,
            c.queue_capacity == 10000,
            c.enable_preemption,
    {
        SchedulerConfig {
            max_concurrent,
            default_timeout_ms: 60000,
            queue_capacity: 10000,
            enable_preemption: true,
        }
    }
}

} // verus!
