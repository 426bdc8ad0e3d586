//! The bridge's error taxonomy: one terminal kind per failure point.

use vstd::prelude::*;
use vstd::string::*;

verus! {

/// Classified failure of one fetch invocation.  Every kind is terminal
/// and carries the message captured at the point of failure.
#[derive(Debug, Clone)]
pub enum FetchError {
    /// The script path could not be resolved (resource-directory
    /// lookup failed).
    PathResolution(String),
    /// The worker context could not run the blocking process wait.
    Scheduling(String),
    /// The external process could not be created or awaited.
    ProcessLaunch(String),
    /// The process exited with a non-success status; carries its
    /// standard error, decoded permissively.
    ScriptExecution(String),
    /// The process's standard output was not valid UTF-8.
    InvalidEncoding(String),
    /// The decoded output was not one record of the expected shape.
    MalformedOutput(String),
}

impl FetchError {
    /// The user-facing text of this error, as the single flattened
    /// string channel presents it.
    pub open spec fn message_spec(&self) -> Seq<char> {
        match self {
            FetchError::PathResolution(m) => m@,
            FetchError::Scheduling(m) => m@,
            FetchError::ProcessLaunch(m) => "Failed to run yt-dlp script: "@ + m@,
            FetchError::ScriptExecution(m) => "Script error: "@ + m@,
            FetchError::InvalidEncoding(m) => "Invalid UTF-8 output: "@ + m@,
            FetchError::MalformedOutput(m) => "Parse error: "@ + m@,
        }
    }

    /// Flatten the error to its user-facing string.
    pub fn message(&self) -> (r: String)
        ensures
            r@ == self.message_spec(),
    {
        match self {
            FetchError::PathResolution(m) => m.clone(),
            FetchError::Scheduling(m) => m.clone(),
            FetchError::ProcessLaunch(m) => {
                String::from_str("Failed to run yt-dlp script: ").concat(m.as_str())
            },
            FetchError::ScriptExecution(m) => {
                String::from_str("Script error: ").concat(m.as_str())
            },
            FetchError::InvalidEncoding(m) => {
                String::from_str("Invalid UTF-8 output: ").concat(m.as_str())
            },
            FetchError::MalformedOutput(m) => {
                String::from_str("Parse error: ").concat(m.as_str())
            },
        }
    }
}

} // verus!
