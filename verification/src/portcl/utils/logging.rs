//! The log level that PortCL's logging is set up with.
use vstd::prelude::*;

use crate::text::str_eq;

verus! {

/// A level of detail for the log.
#[derive(Debug, Clone, Copy, PartialEq, Eq, Structural)]
pub enum LogLevel {
    Trace,
    Debug,
    Info,
    Warn,
    Error,
}

/// The level a name stands for: `trace`, `debug`, `info`, `warn` or `error`; any
/// other name means `info`.
pub open spec fn level_named(name: Seq<char>) -> LogLevel {
    if name == "trace"@ {
        LogLevel::Trace
    } else if name == "debug"@ {
        LogLevel::Debug
    } else if name == "warn"@ {
        LogLevel::Warn
    } else if name == "error"@ {
        LogLevel::Error
    } else {
        LogLevel::Info
    }
}

pub fn log_level_for(name: &str) -> (l: LogLevel)
    ensures
        l == level_named(name@),
{
    proof {
        reveal_strlit("trace");
        reveal_strlit("debug");
        reveal_strlit("warn");
        reveal_strlit("error");
    }
    if str_eq(name, "trace") {
        LogLevel::Trace
    } else if str_eq(name, "debug") {
        LogLevel::Debug
    } else if str_eq(name, "warn") {
        LogLevel::Warn
    } else if str_eq(name, "error") {
        LogLevel::Error
    } else {
        LogLevel::Info
    }
}

} // verus!
