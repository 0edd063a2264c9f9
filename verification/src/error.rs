//! The run-level error type shared by the ported components. Causes
//! that the platform reports (I/O failures and the like) are carried as
//! plain descriptions, so the whole type can be cloned freely.
use vstd::prelude::*;

verus! {

/// Everything that can go wrong while working on an archive.
#[derive(Debug, Clone)]
pub enum ZipError {
    /// An I/O failure, described.
    Io(String),
    /// A memory fault.
    Memory(String),
    /// A memory budget was exceeded.
    MemoryLimit(String),
    /// A resource limit was exceeded.
    ResourceLimit(String),
    /// A thread-safety fault.
    ThreadSafety(String),
    /// A channel fault.
    Channel(String),
    /// A task-channel fault.
    TaskChannel(String),
    /// A semaphore fault.
    Semaphore(String),
    /// The end-of-central-directory record was not found.
    EndOfCentralDirectoryNotFound,
    /// The archive bytes are not valid ZIP.
    InvalidFormat(String),
    /// A record carried the wrong signature.
    InvalidSignature(u32),
    /// A compression method outside the supported set.
    UnsupportedMethod(u16),
    /// A processing failure.
    Processing(String),
    /// A thread-pool fault.
    ThreadPool(String),
    /// A compression fault.
    Compression(String),
    /// A checksum fault.
    Crc(String),
    /// Anything else.
    Other(String),
    /// No pooled buffer was free.
    NoBufferAvailable,
}

} // verus!
