//! Errors of the per-member container types.
use vstd::prelude::*;

verus! {

/// What can go wrong while validating or decoding one member.
#[derive(Debug, Clone)]
pub enum ZipError {
    /// An I/O failure, described.
    Io(String),
    /// The member's structure is not valid ZIP.
    Format(String),
    /// A compression method outside the supported set.
    UnsupportedMethod(u16),
    /// The member name contains a NUL character.
    InvalidName,
    /// The member is larger than the 32-bit format allows.
    FileTooLarge,
    /// The decoded byte count, or a Store member's compressed size,
    /// differs from the claimed stored size.
    SizeMismatch,
    /// A memory fault.
    Memory(String),
    /// No pooled buffer was free.
    NoBufferAvailable,
    /// The observed CRC-32 differs from the claimed one.
    Crc32Mismatch,
}

} // verus!
