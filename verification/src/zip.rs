//! ZIP container structures: the on-disk record layouts, their parsers,
//! and the per-member types.
pub mod entry;
pub mod error;
pub mod reader;
