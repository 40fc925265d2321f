//! What the log shows: the level filter chosen from the number of `-v` flags,
//! and how a record of each level is decorated on the terminal.
use vstd::prelude::*;

verus! {

/// The most detailed level that the log shows.
#[derive(Debug, Clone, Copy, PartialEq, Eq, Structural)]
pub enum LogFilter {
    Info,
    Debug,
    Trace,
}

/// The level of a log record, from the most to the least severe.
#[derive(Debug, Clone, Copy, PartialEq, Eq, Structural)]
pub enum LogLevel {
    Error,
    Warn,
    Info,
    Debug,
    Trace,
}

/// No `-v` shows information and above, one `-v` adds debug records, more
/// add trace records.
pub open spec fn spec_log_filter(verbosity: u8) -> LogFilter {
    if verbosity == 0 {
        LogFilter::Info
    } else if verbosity == 1 {
        LogFilter::Debug
    } else {
        LogFilter::Trace
    }
}

/// The filter for `verbosity` flags `-v`.
pub fn log_filter(verbosity: u8) -> (f: LogFilter)
    ensures
        f == spec_log_filter(verbosity),
{
    if verbosity == 0 {
        LogFilter::Info
    } else if verbosity == 1 {
        LogFilter::Debug
    } else {
        LogFilter::Trace
    }
}

/// The detail of a level: higher is less severe.
pub open spec fn level_detail(level: LogLevel) -> int {
    match level {
        LogLevel::Error => 1,
        LogLevel::Warn => 2,
        LogLevel::Info => 3,
        LogLevel::Debug => 4,
        LogLevel::Trace => 5,
    }
}

/// The detail up to which a filter lets records through.
pub open spec fn filter_detail(filter: LogFilter) -> int {
    match filter {
        LogFilter::Info => 3,
        LogFilter::Debug => 4,
        LogFilter::Trace => 5,
    }
}

/// A record of `level` is shown under `filter` when it is no more detailed
/// than the filter allows.
pub open spec fn shown(filter: LogFilter, level: LogLevel) -> bool {
    level_detail(level) <= filter_detail(filter)
}

/// More `-v` flags never hide a record that fewer flags show.
pub proof fn lemma_more_verbose_shows_more(v1: u8, v2: u8, level: LogLevel)
    requires
        v1 <= v2,
        shown(spec_log_filter(v1), level),
    ensures
        shown(spec_log_filter(v2), level),
{
}

/// Errors and warnings are shown whatever the number of `-v` flags.
pub proof fn lemma_problems_always_shown(verbosity: u8)
    ensures
        shown(spec_log_filter(verbosity), LogLevel::Error),
        shown(spec_log_filter(verbosity), LogLevel::Warn),
{
}

/// The text put before and after a record's message on the terminal:
/// warnings in yellow with a `[WARN] ` tag, errors in bright red with an
/// `[ERROR] ` tag, every other record plain.
pub fn record_decoration(level: LogLevel) -> (d: (&'static str, &'static str))
    ensures
        level == LogLevel::Warn ==> d.0@ == "\x1b[33m[WARN] "@ && d.1@ == "\x1b[0m"@,
        level == LogLevel::Error ==> d.0@ == "\x1b[91m[ERROR] "@ && d.1@ == "\x1b[0m"@,
        level != LogLevel::Warn && level != LogLevel::Error ==> d.0@ == ""@ && d.1@ == ""@,
{
    match level {
        LogLevel::Warn => ("\x1b[33m[WARN] ", "\x1b[0m"),
        LogLevel::Error => ("\x1b[91m[ERROR] ", "\x1b[0m"),
        _ => ("", ""),
    }
}

} // verus!
