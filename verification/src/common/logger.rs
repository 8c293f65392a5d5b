use vstd::prelude::*;

use super::cli::Commands;

verus! {

/// The log level for `command`: `verbose_level` for the server and for a verbose tunnel,
/// "error" otherwise.
pub fn resolve_log_level(command: &Commands, verbose_level: &'static str) -> (out: &'static str)
    ensures
        out@ == (match command {
            Commands::Server { .. } => verbose_level@,
            Commands::Tunnel { verbose, .. } => if *verbose {
                verbose_level@
            } else {
                "error"@
            },
            _ => "error"@,
        }),
{
    match command {
        Commands::Init { .. } => "error",
        Commands::Server { .. } => verbose_level,
        Commands::Tunnel { verbose, .. } => {
            if *verbose {
                verbose_level
            } else {
                "error"
            }
        },
        Commands::Monitor { .. } => "error",
    }
}

/// The levels a log record can have.
#[derive(Debug, Clone, Copy, PartialEq, Eq)]
pub enum LogLevel {
    Error,
    Warn,
    Info,
    Debug,
    Trace,
}

/// The label that a log line starts with: the level's name, colored with terminal escapes when
/// `show_colors` is set.
pub fn level_label(level: LogLevel, show_colors: bool) -> (out: &'static str)
    ensures
        out@ == (match (level, show_colors) {
            (LogLevel::Error, true) => "\x1b[31mERROR\x1b[0m"@,
            (LogLevel::Warn, true) => "\x1b[33mWARN\x1b[0m"@,
            (LogLevel::Info, true) => "\x1b[32mINFO\x1b[0m"@,
            (LogLevel::Debug, true) => "\x1b[34mDEBUG\x1b[0m"@,
            (LogLevel::Trace, true) => "\x1b[35mTRACE\x1b[0m"@,
            (LogLevel::Error, false) => "ERROR"@,
            (LogLevel::Warn, false) => "WARN"@,
            (LogLevel::Info, false) => "INFO"@,
            (LogLevel::Debug, false) => "DEBUG"@,
            (LogLevel::Trace, false) => "TRACE"@,
        }),
{
    if show_colors {
        match level {
            LogLevel::Error => "\x1b[31mERROR\x1b[0m",
            LogLevel::Warn => "\x1b[33mWARN\x1b[0m",
            LogLevel::Info => "\x1b[32mINFO\x1b[0m",
            LogLevel::Debug => "\x1b[34mDEBUG\x1b[0m",
            LogLevel::Trace => "\x1b[35mTRACE\x1b[0m",
        }
    } else {
        match level {
            LogLevel::Error => "ERROR",
            LogLevel::Warn => "WARN",
            LogLevel::Info => "INFO",
            LogLevel::Debug => "DEBUG",
            LogLevel::Trace => "TRACE",
        }
    }
}

/// Whether log lines are colored, from the LOG_COLORS setting: they are when it is not set
/// or is exactly "true".
pub fn colors_enabled(setting: Option<String>) -> (out: bool)
    ensures
        out == (match setting {
            Some(value) => value@ == "true"@,
            None => true,
        }),
{
    match setting {
        Some(value) => value == "true".to_string(),
        None => true,
    }
}

} // verus!
