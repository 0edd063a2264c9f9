//! Data model types shared across the pipeline.
pub mod analysis;
pub mod file_info;

pub use analysis::AnalysisStats;
pub use file_info::CompressionMethod;
pub use file_info::ProcessingStats;
