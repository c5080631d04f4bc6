use vstd::prelude::*;

verus! {

/// A multiplier of one, in thousandths.
pub const MULTIPLIER_ONE: u64 = 1000;

/// Backoff settings applied after a failed download.
///
/// Delays are in milliseconds; the multiplier is in thousandths
/// (`2000` doubles the delay). A base delay of zero disables backoff.
#[derive(Debug, Clone, Copy, PartialEq, Eq, Structural)]
pub struct RateLimitConfig {
    pub base_delay_ms: u64,
    pub multiplier_permille: u64,
    pub max_delay_ms: u64,
    pub reset_after_success: bool,
}

impl RateLimitConfig {
    /// A normalized configuration: the multiplier is at least one and the
    /// cap is at least the base delay.
    pub open spec fn wf(&self) -> bool {
        &&& self.multiplier_permille >= MULTIPLIER_ONE
        &&& self.max_delay_ms >= self.base_delay_ms
    }

    pub open spec fn enabled(&self) -> bool {
        self.base_delay_ms != 0
    }

    /// The multiplier as it is applied: never below one.
    pub open spec fn effective_multiplier(&self) -> u64 {
        if self.multiplier_permille < MULTIPLIER_ONE {
            MULTIPLIER_ONE
        } else {
            self.multiplier_permille
        }
    }

    /// The cap as it is applied: never below the base delay.
    pub open spec fn effective_max_delay(&self) -> u64 {
        if self.max_delay_ms < self.base_delay_ms {
            self.base_delay_ms
        } else {
            self.max_delay_ms
        }
    }

    /// Builds a configuration, normalizing instead of rejecting: a multiplier
    /// below one becomes one, a cap below the base delay becomes the base delay.
    pub fn new(base_delay_ms: u64, multiplier_permille: u64, max_delay_ms: u64) -> (r: Self)
        ensures
            r.base_delay_ms == base_delay_ms,
            multiplier_permille < MULTIPLIER_ONE ==> r.multiplier_permille == MULTIPLIER_ONE,
            multiplier_permille >= MULTIPLIER_ONE ==> r.multiplier_permille == multiplier_permille,
            max_delay_ms < base_delay_ms ==> r.max_delay_ms == base_delay_ms,
            max_delay_ms >= base_delay_ms ==> r.max_delay_ms == max_delay_ms,
            r.reset_after_success,
            r.wf(),
    {
        let multiplier_permille = if multiplier_permille < MULTIPLIER_ONE {
            MULTIPLIER_ONE
        } else {
            multiplier_permille
        };
        let max_delay_ms = if max_delay_ms < base_delay_ms {
            base_delay_ms
        } else {
            max_delay_ms
        };
        RateLimitConfig { base_delay_ms, multiplier_permille, max_delay_ms, reset_after_success: true }
    }

    pub open spec fn disabled_spec() -> Self {
        RateLimitConfig {
            base_delay_ms: 0,
            multiplier_permille: MULTIPLIER_ONE,
            max_delay_ms: 0,
            reset_after_success: true,
        }
    }

    /// The configuration under which every rate-limiter operation does nothing.
    pub fn disabled() -> (r: Self)
        ensures
            r == Self::disabled_spec(),
            !r.enabled(),
            r.wf(),
    {
        RateLimitConfig {
            base_delay_ms: 0,
            multiplier_permille: MULTIPLIER_ONE,
            max_delay_ms: 0,
            reset_after_success: true,
        }
    }

    pub fn is_enabled(&self) -> (r: bool)
        ensures
            r == self.enabled(),
    {
        self.base_delay_ms != 0
    }
}

impl Default for RateLimitConfig {
    fn default() -> (r: Self)
        ensures
            r == Self::disabled_spec(),
    {
        RateLimitConfig::disabled()
    }
}

/// Output audio format of a downloaded track.
#[derive(Debug, Clone, Copy, PartialEq, Eq, Structural)]
pub enum Format {
    Flac,
    Mp3,
}

impl Format {
    pub open spec fn extension_spec(&self) -> Seq<char> {
        match self {
            Format::Flac => seq!['f', 'l', 'a', 'c'],
            Format::Mp3 => seq!['m', 'p', '3'],
        }
    }

    /// The file name extension of the format, without the dot.
    pub fn extension(&self) -> (r: &'static str)
        ensures
            r@ == self.extension_spec(),
    {
        match self {
            Format::Flac => {
                proof {
                    reveal_strlit("flac");
                }
                "flac"
            },
            Format::Mp3 => {
                proof {
                    reveal_strlit("mp3");
                }
                "mp3"
            },
        }
    }
}

/// Settings of one batch of downloads.
#[derive(Debug, Clone)]
pub struct DownloadOptions {
    /// Directory the files are written to.
    pub destination: String,
    /// Number of tracks processed at the same time.
    pub parallel: usize,
    pub format: Format,
    /// Download again even when the output file exists.
    pub force: bool,
    pub rate_limit: RateLimitConfig,
    /// Emit machine-readable events beside the normal output.
    pub json_events: bool,
}

impl DownloadOptions {
    /// Options with backoff disabled and structured events off.
    pub fn new(destination: String, parallel: usize, format: Format, force: bool) -> (r: Self)
        ensures
            r.destination@ == destination@,
            r.parallel == parallel,
            r.format == format,
            r.force == force,
            r.rate_limit == RateLimitConfig::disabled_spec(),
            !r.json_events,
    {
        DownloadOptions {
            destination,
            parallel,
            format,
            force,
            rate_limit: RateLimitConfig::disabled(),
            json_events: false,
        }
    }

    pub fn set_rate_limit(&mut self, rate_limit: RateLimitConfig)
        ensures
            final(self).rate_limit == rate_limit,
            final(self).destination@ == old(self).destination@,
            final(self).parallel == old(self).parallel,
            final(self).format == old(self).format,
            final(self).force == old(self).force,
            final(self).json_events == old(self).json_events,
    {
        self.rate_limit = rate_limit;
    }

    pub fn enable_json_events(&mut self, enabled: bool)
        ensures
            final(self).json_events == enabled,
            final(self).destination@ == old(self).destination@,
            final(self).parallel == old(self).parallel,
            final(self).format == old(self).format,
            final(self).force == old(self).force,
            final(self).rate_limit == old(self).rate_limit,
    {
        self.json_events = enabled;
    }

    pub open spec fn output_filename_spec(&self, label: Seq<char>) -> Seq<char> {
        label + seq!['.'] + self.format.extension_spec()
    }

    /// The name of the file a track with this label is written to:
    /// the label, a dot, and the format's extension.
    pub fn output_filename(&self, label: &str) -> (r: String)
        ensures
            r@ == self.output_filename_spec(label@),
    {
        proof {
            reveal_strlit(".");
        }
        let name = String::from_str(label);
        let name = name.concat(".");
        name.concat(self.format.extension())
    }
}

} // verus!
