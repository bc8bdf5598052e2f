//! The failures that operations report.
use vstd::prelude::*;

verus! {

/// The failures an operation reports, each with its diagnostic text.
#[derive(Clone, Debug)]
pub enum AdapterError {
    PlatformUnsupported,
    ExternalCommandFailed(String),
    ParseFailed(String),
    ConnectionAbsent,
    PrivilegesRequired,
    BindFailed(String),
    PostOperationCleanupFailed(String),
}

pub open spec fn error_text(e: AdapterError) -> Seq<char> {
    match e {
        AdapterError::PlatformUnsupported => "Unsupported OS"@,
        AdapterError::ExternalCommandFailed(d) => "external command failed: "@ + d@,
        AdapterError::ParseFailed(d) => "output could not be parsed: "@ + d@,
        AdapterError::ConnectionAbsent => "WebSocket connection not established"@,
        AdapterError::PrivilegesRequired => "Administrative privileges required."@,
        AdapterError::BindFailed(d) => "relay could not bind its address: "@ + d@,
        AdapterError::PostOperationCleanupFailed(d) => "cleanup after the operation failed: "@
            + d@,
    }
}

impl AdapterError {
    /// A human-readable description, for callers that show failures as text.
    pub fn message(&self) -> (r: String)
        ensures
            r@ == error_text(*self),
    {
        match self {
            AdapterError::PlatformUnsupported => String::from_str("Unsupported OS"),
            AdapterError::ExternalCommandFailed(d) => String::from_str(
                "external command failed: ",
            ).concat(d.as_str()),
            AdapterError::ParseFailed(d) => String::from_str("output could not be parsed: ").concat(
                d.as_str(),
            ),
            AdapterError::ConnectionAbsent => String::from_str(
                "WebSocket connection not established",
            ),
            AdapterError::PrivilegesRequired => String::from_str(
                "Administrative privileges required.",
            ),
            AdapterError::BindFailed(d) => String::from_str(
                "relay could not bind its address: ",
            ).concat(d.as_str()),
            AdapterError::PostOperationCleanupFailed(d) => String::from_str(
                "cleanup after the operation failed: ",
            ).concat(d.as_str()),
        }
    }
}

} // verus!
