//! Shared utility types.
pub mod error;
