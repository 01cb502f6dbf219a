//! The errors of PortCL.
use vstd::prelude::*;

use crate::text::concat2;

verus! {

/// An error of PortCL: its kind and its message.
#[derive(Debug, Clone)]
pub enum PortCLError {
    Portage(String),
    RLEngine(String),
    ActionExecution(String),
    Configuration(String),
    Io(String),
    Json(String),
    TomlDeserialize(String),
    TomlSerialize(String),
    System(String),
    Network(String),
    Timeout(String),
    Validation(String),
    NotFound(String),
    Service(String),
    Resource(String),
    Safety(String),
    Mock(String),
}

/// The message of the error given when the operating system's random source fails.
pub open spec fn random_source_message() -> Seq<char> {
    "Random source unavailable"@
}

/// The system error given when the operating system's random source fails.
pub fn random_source_error() -> (e: PortCLError)
    ensures
        e matches PortCLError::System(m) && m@ == random_source_message(),
{
    proof {
        reveal_strlit("Random source unavailable");
    }
    PortCLError::System(String::from_str("Random source unavailable"))
}

/// The result of a PortCL operation.
pub type Result<T> = core::result::Result<T, PortCLError>;

impl PortCLError {
    /// The position of the error's kind in the list of kinds.
    pub open spec fn kind(&self) -> int {
        match self {
            PortCLError::Portage(_) => 0,
            PortCLError::RLEngine(_) => 1,
            PortCLError::ActionExecution(_) => 2,
            PortCLError::Configuration(_) => 3,
            PortCLError::Io(_) => 4,
            PortCLError::Json(_) => 5,
            PortCLError::TomlDeserialize(_) => 6,
            PortCLError::TomlSerialize(_) => 7,
            PortCLError::System(_) => 8,
            PortCLError::Network(_) => 9,
            PortCLError::Timeout(_) => 10,
            PortCLError::Validation(_) => 11,
            PortCLError::NotFound(_) => 12,
            PortCLError::Service(_) => 13,
            PortCLError::Resource(_) => 14,
            PortCLError::Safety(_) => 15,
            PortCLError::Mock(_) => 16,
        }
    }

    /// The error's message.
    pub open spec fn message(&self) -> Seq<char> {
        match self {
            PortCLError::Portage(m) => m@,
            PortCLError::RLEngine(m) => m@,
            PortCLError::ActionExecution(m) => m@,
            PortCLError::Configuration(m) => m@,
            PortCLError::Io(m) => m@,
            PortCLError::Json(m) => m@,
            PortCLError::TomlDeserialize(m) => m@,
            PortCLError::TomlSerialize(m) => m@,
            PortCLError::System(m) => m@,
            PortCLError::Network(m) => m@,
            PortCLError::Timeout(m) => m@,
            PortCLError::Validation(m) => m@,
            PortCLError::NotFound(m) => m@,
            PortCLError::Service(m) => m@,
            PortCLError::Resource(m) => m@,
            PortCLError::Safety(m) => m@,
            PortCLError::Mock(m) => m@,
        }
    }

    /// Two errors are the same when their kinds and messages are.
    pub open spec fn same_as(&self, other: &PortCLError) -> bool {
        self.kind() == other.kind() && self.message() == other.message()
    }

    /// The text that opens the error's display, before `": "` and the message.
    pub open spec fn title(&self) -> Seq<char> {
        match self {
            PortCLError::Portage(_) => "Portage API error"@,
            PortCLError::RLEngine(_) => "RL engine error"@,
            PortCLError::ActionExecution(_) => "Action execution error"@,
            PortCLError::Configuration(_) => "Configuration error"@,
            PortCLError::Io(_) => "IO error"@,
            PortCLError::Json(_) => "JSON serialization error"@,
            PortCLError::TomlDeserialize(_) => "TOML parsing error"@,
            PortCLError::TomlSerialize(_) => "TOML serialization error"@,
            PortCLError::System(_) => "System error"@,
            PortCLError::Network(_) => "Network error"@,
            PortCLError::Timeout(_) => "Timeout error"@,
            PortCLError::Validation(_) => "Validation error"@,
            PortCLError::NotFound(_) => "Not found"@,
            PortCLError::Service(_) => "Service error"@,
            PortCLError::Resource(_) => "Resource error"@,
            PortCLError::Safety(_) => "Safety error"@,
            PortCLError::Mock(_) => "Mock error"@,
        }
    }

    /// The error as it is displayed: its title, `": "` and its message.
    pub open spec fn display(&self) -> Seq<char> {
        self.title() + ": "@ + self.message()
    }

    /// The error's message, as a string.
    pub fn message_text(&self) -> (s: &String)
        ensures
            s@ == self.message(),
    {
        match self {
            PortCLError::Portage(m) => m,
            PortCLError::RLEngine(m) => m,
            PortCLError::ActionExecution(m) => m,
            PortCLError::Configuration(m) => m,
            PortCLError::Io(m) => m,
            PortCLError::Json(m) => m,
            PortCLError::TomlDeserialize(m) => m,
            PortCLError::TomlSerialize(m) => m,
            PortCLError::System(m) => m,
            PortCLError::Network(m) => m,
            PortCLError::Timeout(m) => m,
            PortCLError::Validation(m) => m,
            PortCLError::NotFound(m) => m,
            PortCLError::Service(m) => m,
            PortCLError::Resource(m) => m,
            PortCLError::Safety(m) => m,
            PortCLError::Mock(m) => m,
        }
    }

    /// The title of the error's kind.
    pub fn title_text(&self) -> (s: &'static str)
        ensures
            s@ == self.title(),
    {
        let s = match self {
            PortCLError::Portage(_) => "Portage API error",
            PortCLError::RLEngine(_) => "RL engine error",
            PortCLError::ActionExecution(_) => "Action execution error",
            PortCLError::Configuration(_) => "Configuration error",
            PortCLError::Io(_) => "IO error",
            PortCLError::Json(_) => "JSON serialization error",
            PortCLError::TomlDeserialize(_) => "TOML parsing error",
            PortCLError::TomlSerialize(_) => "TOML serialization error",
            PortCLError::System(_) => "System error",
            PortCLError::Network(_) => "Network error",
            PortCLError::Timeout(_) => "Timeout error",
            PortCLError::Validation(_) => "Validation error",
            PortCLError::NotFound(_) => "Not found",
            PortCLError::Service(_) => "Service error",
            PortCLError::Resource(_) => "Resource error",
            PortCLError::Safety(_) => "Safety error",
            PortCLError::Mock(_) => "Mock error",
        };
        s
    }

    /// The error as it is displayed, for example `Validation error: bad input`.
    pub fn to_string(&self) -> (s: String)
        ensures
            s@ == self.display(),
    {
        let mut s = concat2(self.title_text(), ": ");
        s.append(self.message_text().as_str());
        s
    }

    /// A copy of the error: the same kind and the same message.
    pub fn duplicate(&self) -> (e: PortCLError)
        ensures
            e.same_as(self),
    {
        match self {
            PortCLError::Portage(m) => PortCLError::Portage(m.clone()),
            PortCLError::RLEngine(m) => PortCLError::RLEngine(m.clone()),
            PortCLError::ActionExecution(m) => PortCLError::ActionExecution(m.clone()),
            PortCLError::Configuration(m) => PortCLError::Configuration(m.clone()),
            PortCLError::Io(m) => PortCLError::Io(m.clone()),
            PortCLError::Json(m) => PortCLError::Json(m.clone()),
            PortCLError::TomlDeserialize(m) => PortCLError::TomlDeserialize(m.clone()),
            PortCLError::TomlSerialize(m) => PortCLError::TomlSerialize(m.clone()),
            PortCLError::System(m) => PortCLError::System(m.clone()),
            PortCLError::Network(m) => PortCLError::Network(m.clone()),
            PortCLError::Timeout(m) => PortCLError::Timeout(m.clone()),
            PortCLError::Validation(m) => PortCLError::Validation(m.clone()),
            PortCLError::NotFound(m) => PortCLError::NotFound(m.clone()),
            PortCLError::Service(m) => PortCLError::Service(m.clone()),
            PortCLError::Resource(m) => PortCLError::Resource(m.clone()),
            PortCLError::Safety(m) => PortCLError::Safety(m.clone()),
            PortCLError::Mock(m) => PortCLError::Mock(m.clone()),
        }
    }
}

} // verus!
