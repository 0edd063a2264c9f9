//! Progress-display configuration and counters, built through a small
//! builder.
use vstd::prelude::*;

verus! {

/// How the progress display behaves.
#[derive(Debug, Clone)]
pub struct ProgressConfig {
    /// Milliseconds between updates.
    pub update_frequency_ms: u64,
    /// The display's style template.
    pub style_template: String,
    /// Milliseconds between redraws.
    pub refresh_rate_ms: u64,
}

/// Counters shown by the progress display.
#[derive(Debug, Clone)]
pub struct ProgressStats {
    /// Bytes in total.
    pub total_bytes: u64,
    /// Bytes done.
    pub processed_bytes: u64,
    /// Members in total.
    pub total_files: usize,
    /// Members done.
    pub processed_files: usize,
    /// Failures seen.
    pub error_count: usize,
}

impl Default for ProgressStats {
    /// Fresh, zeroed counters.
    fn default() -> (s: ProgressStats)
        ensures
            s.total_bytes == 0,
            s.processed_bytes == 0,
            s.total_files == 0,
            s.processed_files == 0,
            s.error_count == 0,
    {
        ProgressStats {
            total_bytes: 0,
            processed_bytes: 0,
            total_files: 0,
            processed_files: 0,
            error_count: 0,
        }
    }
}

impl ProgressConfig {
    /// Starts a builder with nothing chosen.
    pub fn builder() -> (b: ProgressConfigBuilder)
        ensures
            b.update_frequency_ms is None,
            b.style_template is None,
            b.refresh_rate_ms is None,
    {
        ProgressConfigBuilder {
            update_frequency_ms: None,
            style_template: None,
            refresh_rate_ms: None,
        }
    }
}

/// Accumulates progress-display choices.
#[derive(Debug)]
pub struct ProgressConfigBuilder {
    /// Chosen update frequency, if any.
    pub update_frequency_ms: Option<u64>,
    /// Chosen style template, if any.
    pub style_template: Option<String>,
    /// Chosen redraw interval, if any.
    pub refresh_rate_ms: Option<u64>,
}

impl ProgressConfigBuilder {
    /// Chooses the update frequency.
    pub fn update_frequency_ms(self, ms: u64) -> (b: ProgressConfigBuilder)
        ensures
            b.update_frequency_ms == Some(ms),
            b.style_template == self.style_template,
            b.refresh_rate_ms == self.refresh_rate_ms,
    {
        ProgressConfigBuilder { update_frequency_ms: Some(ms), ..self }
    }

    /// Chooses the style template.
    pub fn style_template(self, template: String) -> (b: ProgressConfigBuilder)
        ensures
            b.style_template matches Some(t) && t@ == template@,
            b.update_frequency_ms == self.update_frequency_ms,
            b.refresh_rate_ms == self.refresh_rate_ms,
    {
        ProgressConfigBuilder { style_template: Some(template), ..self }
    }

    /// Chooses the redraw interval.
    pub fn refresh_rate(self, rate_ms: u64) -> (b: ProgressConfigBuilder)
        ensures
            b.refresh_rate_ms == Some(rate_ms),
            b.update_frequency_ms == self.update_frequency_ms,
            b.style_template == self.style_template,
    {
        ProgressConfigBuilder { refresh_rate_ms: Some(rate_ms), ..self }
    }

    /// Finishes the configuration, filling defaults: updates every
    /// hundred milliseconds, redraws every thirty-three.
    pub fn build(self) -> (c: ProgressConfig)
        ensures
            c.update_frequency_ms == (if self.update_frequency_ms is Some {
                self.update_frequency_ms.unwrap()
            } else {
                100u64
            }),
            c.refresh_rate_ms == (if self.refresh_rate_ms is Some {
                self.refresh_rate_ms.unwrap()
            } else {
                33u64
            }),
            self.style_template matches Some(t) ==> c.style_template@ == t@,
            self.style_template is None ==> c.style_template@
                == "[{elapsed_precise}] {bar:40.cyan/blue} {pos:>7}/{len:7} {msg}"@,
    {
        let update_frequency_ms = match self.update_frequency_ms {
            Some(ms) => ms,
            None => 100,
        };
        let refresh_rate_ms = match self.refresh_rate_ms {
            Some(ms) => ms,
            None => 33,
        };
        let style_template = match self.style_template {
            Some(t) => t,
            None => "[{elapsed_precise}] {bar:40.cyan/blue} {pos:>7}/{len:7} {msg}".to_owned(),
        };
        ProgressConfig { update_frequency_ms, style_template, refresh_rate_ms }
    }
}

} // verus!
