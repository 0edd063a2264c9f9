//! Report configuration for the run-level reporter.
use vstd::prelude::*;

verus! {

/// The report's output format.
#[derive(Debug, Clone, Copy, PartialEq, Eq, Structural)]
pub enum ReportFormat {
    Text,
    Json,
    Markdown,
}

/// What the reporter should include.
#[derive(Debug, Clone)]
pub struct ReportConfig {
    /// Output format.
    pub format: ReportFormat,
    /// Include detailed statistics.
    pub detailed: bool,
    /// Show a progress bar while running.
    pub show_progress: bool,
    /// Include performance metrics.
    pub include_performance: bool,
    /// Include error details.
    pub include_errors: bool,
}

impl Default for ReportConfig {
    /// Text output with progress, performance and errors included.
    fn default() -> (c: ReportConfig)
        ensures
            c.format == ReportFormat::Text,
            !c.detailed,
            c.show_progress,
            c.include_performance,
            c.include_errors,
    {
        ReportConfig {
            format: ReportFormat::Text,
            detailed: false,
            show_progress: true,
            include_performance: true,
            include_errors: true,
        }
    }
}

} // verus!
