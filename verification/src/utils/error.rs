//! A structured error type carrying rich context for each failure
//! class. Platform causes are held as plain descriptions, so the type
//! clones by value.
use vstd::prelude::*;

verus! {

/// A failure with its context.
#[derive(Debug, Clone)]
pub enum ZipError {
    /// An I/O failure: what was being done, and the cause.
    Io { context: String, source: String },
    /// A memory failure, with the sizes involved where known.
    Memory { context: String, size: Option<usize>, limit: Option<usize> },
    /// A format failure, with the member concerned where known.
    Format { message: String, entry: Option<String>, details: Option<String> },
    /// A resource-management failure.
    Resource { kind: ResourceErrorKind, message: String },
    /// A worker failure.
    Worker { thread_id: Option<usize>, error_type: WorkerErrorType },
    /// No pooled buffer was free.
    NoBufferAvailable,
}

/// What kind of resource management failed.
#[derive(Debug, Clone, Copy, PartialEq, Eq, Structural)]
pub enum ResourceErrorKind {
    /// A pool ran dry.
    PoolExhausted,
    /// An allocation failed outright.
    AllocationFailed,
    /// A configured limit was passed.
    LimitExceeded,
}

/// What kind of worker fault occurred.
#[derive(Debug, Clone, Copy, PartialEq, Eq, Structural)]
pub enum WorkerErrorType {
    /// A worker panicked.
    Panic,
    /// The pool was configured badly.
    ConfigurationError,
    /// A task could not be dispatched.
    TaskDispatchError,
}

} // verus!
