//! Command-line model: the three subcommands, their arguments and the
//! verbosity rule.
use vstd::prelude::*;

verus! {

/// Log verbosity levels, most severe first.
#[derive(Debug, Clone, Copy, PartialEq, Eq, Structural)]
pub enum LogLevel {
    Error,
    Warn,
    Info,
    Debug,
    Trace,
}

/// The whole command line.
pub struct Cli {
    pub command: Commands,
    /// Number of `-v` flags (-v = debug, -vv = trace).
    pub verbose: u8,
}

/// The log level for a number of `-v` flags: none gives warnings only, one gives
/// debug output, two or more give trace output.
pub open spec fn level_for(verbose: u8) -> LogLevel {
    if verbose == 0 {
        LogLevel::Warn
    } else if verbose == 1 {
        LogLevel::Debug
    } else {
        LogLevel::Trace
    }
}

impl Cli {
    pub fn log_level(&self) -> (l: LogLevel)
        ensures
            l == level_for(self.verbose),
    {
        match self.verbose {
            0 => LogLevel::Warn,
            1 => LogLevel::Debug,
            _ => LogLevel::Trace,
        }
    }
}

pub enum Commands {
    /// Scan a filesystem path for cryptographic assets
    Scan(ScanArgs),
    /// Probe a TLS endpoint for cryptographic posture
    Tls(TlsArgs),
    /// Compare two CBOM files and show the cryptographic delta
    Diff(DiffArgs),
}

/// Arguments of `scan`.
pub struct ScanArgs {
    /// Path to scan (file or directory)
    pub path: String,
    /// Output file path (default: stdout)
    pub output: Option<String>,
    /// Output format
    pub format: OutputFormat,
    /// Fail if any finding meets or exceeds this risk level
    pub fail_on: Option<FailOn>,
    /// Suppress the table; print only the structured output
    pub quiet: bool,
    /// Follow symlinks when walking directories
    pub follow_links: bool,
    /// Path to an ignore file (default: `<scan-path>/.acdignore` if present)
    pub ignore_file: Option<String>,
    /// Do not load any ignore file
    pub no_ignore: bool,
    /// Re-scan automatically when files change
    pub watch: bool,
}

/// Report formats of `scan`.
#[derive(Debug, Clone, Copy, PartialEq, Eq, Structural)]
pub enum OutputFormat {
    CycloneDx17,
    Sarif,
    Html,
    Csv,
}

/// Risk thresholds of `--fail-on`.
#[derive(Debug, Clone, Copy, PartialEq, Eq, Structural, PartialOrd, Ord)]
pub enum FailOn {
    Low,
    Medium,
    High,
    Critical,
}

/// Arguments of `tls`.
pub struct TlsArgs {
    /// Host:port to probe (e.g. api.example.com:443)
    pub target: Option<String>,
    /// File containing one host:port per line
    pub hosts: Option<String>,
    /// Output file for CBOM JSON
    pub output: Option<String>,
    /// Maximum concurrent TLS connections
    pub concurrency: usize,
    /// Per-host timeout in seconds
    pub timeout: u64,
}

/// Arguments of `diff`.
pub struct DiffArgs {
    /// First (older) CBOM JSON file
    pub before: String,
    /// Second (newer) CBOM JSON file
    pub after: String,
    /// Output format for the diff
    pub format: DiffFormat,
}

/// Output formats of `diff`.
#[derive(Debug, Clone, Copy, PartialEq, Eq, Structural)]
pub enum DiffFormat {
    Text,
    Json,
}

} // verus!
