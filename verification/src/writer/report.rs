//! Report-file formatting choices and the writer that carries them.
//! The writer renders through the verified report pipeline; the binary
//! does the file I/O.
use vstd::prelude::*;

verus! {

/// How sizes are printed.
#[derive(Debug, Clone, Copy, PartialEq, Eq, Structural)]
pub enum SizeFormat {
    /// Powers of 1024.
    Binary,
    /// Powers of 1000.
    Decimal,
    /// Plain byte counts.
    Bytes,
}

/// What the per-member section is ordered by.
#[derive(Debug, Clone, Copy, PartialEq, Eq, Structural)]
pub enum SortField {
    Path,
    Size,
    CompressedSize,
    CompressionRatio,
    Modified,
}

/// Formatting choices for a report file.
#[derive(Debug, Clone)]
pub struct FormatConfig {
    /// Print section headers.
    pub include_headers: bool,
    /// How sizes are printed.
    pub size_format: SizeFormat,
    /// Per-member ordering.
    pub sort_by: SortField,
    /// Timestamp format string.
    pub timestamp_format: String,
}

impl Default for FormatConfig {
    /// Headers on, binary sizes, path order.
    fn default() -> (c: FormatConfig)
        ensures
            c.include_headers,
            c.size_format == SizeFormat::Binary,
            c.sort_by == SortField::Path,
            c.timestamp_format@ == "%Y-%m-%d %H:%M:%S"@,
    {
        FormatConfig {
            include_headers: true,
            size_format: SizeFormat::Binary,
            sort_by: SortField::Path,
            timestamp_format: "%Y-%m-%d %H:%M:%S".to_owned(),
        }
    }
}

/// Carries the output path and formatting choices for one report.
#[derive(Debug)]
pub struct ReportWriter {
    /// Where the report goes.
    pub output_path: String,
    /// How it is formatted.
    pub format_config: FormatConfig,
}

impl ReportWriter {
    /// Binds formatting choices to an output path.
    pub fn new(path: String, config: FormatConfig) -> (w: ReportWriter)
        ensures
            w.output_path@ == path@,
            w.format_config == config,
    {
        ReportWriter { output_path: path, format_config: config }
    }
}

} // verus!
