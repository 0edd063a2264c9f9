//! Output-side configuration: progress display and report formatting.
pub mod progress;
pub mod report;
