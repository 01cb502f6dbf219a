//! How PortCL treats its errors: passing them on, retrying and ranking them.
use vstd::prelude::*;

use crate::portcl::error::PortCLError;
use crate::text::{has_sub, str_contains};

verus! {

/// Hands an error on unchanged, as an `Err` of the same kind and message.
pub fn handle_error(error: &PortCLError) -> (r: Result<(), PortCLError>)
    ensures
        r matches Err(e) && e.same_as(error),
{
    Err(error.duplicate())
}

/// Passes `result` through unchanged; `operation` names it for whoever reports it.
pub fn log_result<T>(result: Result<T, PortCLError>, operation: &str) -> (r: Result<
    T,
    PortCLError,
>)
    ensures
        r == result,
{
    result
}

/// Whether an error is worth retrying: network, timeout and I/O errors always; Portage
/// errors that mention a timeout, the network or something temporary; system errors
/// that mention something temporary, a resource or being busy.
pub open spec fn retryable(e: PortCLError) -> bool {
    match e {
        PortCLError::Network(_) => true,
        PortCLError::Timeout(_) => true,
        PortCLError::Io(_) => true,
        PortCLError::Portage(m) => has_sub(m@, "timeout"@) || has_sub(m@, "network"@) || has_sub(
            m@,
            "temporary"@,
        ),
        PortCLError::System(m) => has_sub(m@, "temporarily"@) || has_sub(m@, "resource"@)
            || has_sub(m@, "busy"@),
        _ => false,
    }
}

pub fn is_retryable_error(error: &PortCLError) -> (b: bool)
    ensures
        b == retryable(*error),
{
    match error {
        PortCLError::Network(_) => true,
        PortCLError::Timeout(_) => true,
        PortCLError::Io(_) => true,
        PortCLError::Portage(m) => str_contains(m.as_str(), "timeout") || str_contains(
            m.as_str(),
            "network",
        ) || str_contains(m.as_str(), "temporary"),
        PortCLError::System(m) => str_contains(m.as_str(), "temporarily") || str_contains(
            m.as_str(),
            "resource",
        ) || str_contains(m.as_str(), "busy"),
        _ => false,
    }
}

/// How serious an error is.
#[derive(Debug, Clone, Copy, PartialEq, Eq, Structural)]
pub enum ErrorSeverity {
    Critical,
    High,
    Medium,
    Low,
}

/// The severity of each kind of error: configuration errors are critical; Portage,
/// action, system, service and resource errors high; RL engine, validation, I/O and
/// not-found errors medium; network, timeout, JSON, TOML and mock errors low; safety
/// errors critical.
pub open spec fn severity_of(e: PortCLError) -> ErrorSeverity {
    match e {
        PortCLError::Portage(_) => ErrorSeverity::High,
        PortCLError::RLEngine(_) => ErrorSeverity::Medium,
        PortCLError::ActionExecution(_) => ErrorSeverity::High,
        PortCLError::Configuration(_) => ErrorSeverity::Critical,
        PortCLError::System(_) => ErrorSeverity::High,
        PortCLError::Network(_) => ErrorSeverity::Low,
        PortCLError::Timeout(_) => ErrorSeverity::Low,
        PortCLError::Validation(_) => ErrorSeverity::Medium,
        PortCLError::Io(_) => ErrorSeverity::Medium,
        PortCLError::Json(_) => ErrorSeverity::Low,
        PortCLError::TomlDeserialize(_) => ErrorSeverity::Low,
        PortCLError::TomlSerialize(_) => ErrorSeverity::Low,
        PortCLError::NotFound(_) => ErrorSeverity::Medium,
        PortCLError::Service(_) => ErrorSeverity::High,
        PortCLError::Resource(_) => ErrorSeverity::High,
        PortCLError::Safety(_) => ErrorSeverity::Critical,
        PortCLError::Mock(_) => ErrorSeverity::Low,
    }
}

pub fn error_severity(error: &PortCLError) -> (s: ErrorSeverity)
    ensures
        s == severity_of(*error),
{
    match error {
        PortCLError::Portage(_) => ErrorSeverity::High,
        PortCLError::RLEngine(_) => ErrorSeverity::Medium,
        PortCLError::ActionExecution(_) => ErrorSeverity::High,
        PortCLError::Configuration(_) => ErrorSeverity::Critical,
        PortCLError::System(_) => ErrorSeverity::High,
        PortCLError::Network(_) => ErrorSeverity::Low,
        PortCLError::Timeout(_) => ErrorSeverity::Low,
        PortCLError::Validation(_) => ErrorSeverity::Medium,
        PortCLError::Io(_) => ErrorSeverity::Medium,
        PortCLError::Json(_) => ErrorSeverity::Low,
        PortCLError::TomlDeserialize(_) => ErrorSeverity::Low,
        PortCLError::TomlSerialize(_) => ErrorSeverity::Low,
        PortCLError::NotFound(_) => ErrorSeverity::Medium,
        PortCLError::Service(_) => ErrorSeverity::High,
        PortCLError::Resource(_) => ErrorSeverity::High,
        PortCLError::Safety(_) => ErrorSeverity::Critical,
        PortCLError::Mock(_) => ErrorSeverity::Low,
    }
}

impl ErrorSeverity {
    pub open spec fn name(self) -> Seq<char> {
        match self {
            ErrorSeverity::Critical => "critical"@,
            ErrorSeverity::High => "high"@,
            ErrorSeverity::Medium => "medium"@,
            ErrorSeverity::Low => "low"@,
        }
    }

    /// The severity's name in lower case.
    pub fn as_str(&self) -> (s: &'static str)
        ensures
            s@ == self.name(),
    {
        match self {
            ErrorSeverity::Critical => "critical",
            ErrorSeverity::High => "high",
            ErrorSeverity::Medium => "medium",
            ErrorSeverity::Low => "low",
        }
    }
}

} // verus!
