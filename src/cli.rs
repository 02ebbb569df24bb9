//! Command-line argument records and the overrides they imply.
use vstd::prelude::*;
use crate::types::DiffMode;

verus! {

/// A filesystem path given on the command line, carried through unread.
#[verifier::external_type_specification]
#[verifier::external_body]
pub struct ExPathBuf(std::path::PathBuf);

#[derive(Debug, Clone, Copy, PartialEq, Eq, Structural)]
pub enum OutputFormat {
    Json,
    Human,
}

#[derive(Debug, Clone, Copy, PartialEq, Eq, Structural)]
pub enum LogLevel {
    Trace,
    Debug,
    Info,
    Warn,
    Error,
}

#[derive(Debug, Clone, Copy, PartialEq, Eq, Structural)]
pub enum LogFormat {
    Json,
    Text,
}

/// Global options and the subcommand.
#[derive(Debug)]
pub struct Cli {
    pub config: Option<std::path::PathBuf>,
    pub log_level: LogLevel,
    pub quiet: bool,
    pub no_color: bool,
    pub command: Commands,
}

#[derive(Debug)]
pub enum Commands {
    Plan(PlanArgs),
    Apply(ApplyArgs),
    Serve(ServeArgs),
}

/// Options of the `plan` subcommand.
#[derive(Debug)]
pub struct PlanArgs {
    pub repo: Option<std::path::PathBuf>,
    pub diff_file: Option<std::path::PathBuf>,
    pub diff_mode: Option<DiffMode>,
    pub include_untracked: bool,
    pub no_include_untracked: bool,
    pub format: OutputFormat,
    pub log_diff: bool,
    pub no_log_diff: bool,
    pub model: Option<String>,
    pub dry_run: bool,
    pub timeout: Option<u64>,
}

/// Options of the `apply` subcommand.
#[derive(Debug)]
pub struct ApplyArgs {
    pub repo: std::path::PathBuf,
    pub diff_file: Option<std::path::PathBuf>,
    pub diff_mode: Option<DiffMode>,
    pub include_untracked: bool,
    pub no_include_untracked: bool,
    pub format: OutputFormat,
    pub log_diff: bool,
    pub no_log_diff: bool,
    pub model: Option<String>,
    pub execute: bool,
    pub cleanup_on_error: bool,
    pub timeout: Option<u64>,
}

/// Options of the `serve` subcommand.
#[derive(Debug)]
pub struct ServeArgs {
    pub host: String,
    pub port: u16,
    pub model: Option<String>,
    pub log_format: LogFormat,
    pub request_timeout: u64,
    pub log_diff: bool,
    pub no_log_diff: bool,
}

/// A `--x` / `--no-x` flag pair as an override: the negative flag wins,
/// and neither flag means no override.
pub open spec fn flag_override(on: bool, off: bool) -> Option<bool> {
    if off {
        Some(false)
    } else if on {
        Some(true)
    } else {
        None
    }
}

fn flag_pair(on: bool, off: bool) -> (r: Option<bool>)
    ensures
        r == flag_override(on, off),
{
    if off {
        Some(false)
    } else if on {
        Some(true)
    } else {
        None
    }
}

impl PlanArgs {
    pub fn include_untracked_override(&self) -> (r: Option<bool>)
        ensures
            r == flag_override(self.include_untracked, self.no_include_untracked),
    {
        flag_pair(self.include_untracked, self.no_include_untracked)
    }

    pub fn log_diff_override(&self) -> (r: Option<bool>)
        ensures
            r == flag_override(self.log_diff, self.no_log_diff),
    {
        flag_pair(self.log_diff, self.no_log_diff)
    }
}

impl ApplyArgs {
    pub fn include_untracked_override(&self) -> (r: Option<bool>)
        ensures
            r == flag_override(self.include_untracked, self.no_include_untracked),
    {
        flag_pair(self.include_untracked, self.no_include_untracked)
    }

    pub fn log_diff_override(&self) -> (r: Option<bool>)
        ensures
            r == flag_override(self.log_diff, self.no_log_diff),
    {
        flag_pair(self.log_diff, self.no_log_diff)
    }
}

impl ServeArgs {
    pub fn log_diff_override(&self) -> (r: Option<bool>)
        ensures
            r == flag_override(self.log_diff, self.no_log_diff),
    {
        flag_pair(self.log_diff, self.no_log_diff)
    }
}

} // verus!
