//! The fetch bridge's decision core.
//!
//! One fetch runs in two decisions around the outside work.  First
//! the locator's outcome is turned into either the process invocation
//! owed for the URL or a terminal path-resolution error — nothing is
//! ever spawned for a failed resolution.  Then, once the surrounding
//! application has spawned the process off the caller's context and
//! awaited it, the observed outcome is interpreted into the metadata
//! record or a classified error.  Both decisions are pure functions
//! of their own arguments: invocations share no state.

use vstd::prelude::*;
use vstd::string::*;
use vstd::utf8::decode_utf8;
use vstd::utf8::valid_utf8;

use crate::errors::FetchError;
use crate::jsonval::decode_metadata;
use crate::jsonval::decode_ok;
use crate::jsonval::decoded_record;
use crate::metadata::YtDlpResult;
use crate::metadata::YtDlpResultView;
use crate::textenc::lossy_decode;
use crate::textenc::utf8_decode;
use crate::textenc::utf8_decode_lossy;
use crate::textenc::utf8_error_text;

verus! {

/// The interpreter that runs the helper script, resolved by the
/// environment's executable search.
pub open spec fn interpreter_name() -> Seq<char> {
    "python3"@
}

/// The process invocation owed for one fetch: the fixed interpreter
/// with the script path and the URL as its two positional arguments,
/// in that order.
pub struct SpawnCommand {
    pub program: String,
    pub script: String,
    pub url: String,
}

/// Decide the invocation for one fetch from the locator's outcome.
///
/// A resolution failure is terminal: it becomes a path-resolution
/// error carrying the locator's message unchanged, and no command is
/// produced, so nothing can be spawned for it.
pub fn plan_fetch(resolution: Result<String, String>, url: String) -> (r: Result<
    SpawnCommand,
    FetchError,
>)
    ensures
        (match resolution {
            Ok(p) => r matches Ok(c) && c.program@ == interpreter_name() && c.script@ == p@
                && c.url@ == url@,
            Err(m) => r matches Err(e) && e matches FetchError::PathResolution(t) && t@ == m@,
        }),
{
    match resolution {
        Ok(p) => Ok(SpawnCommand { program: String::from_str("python3"), script: p, url }),
        Err(m) => Err(FetchError::PathResolution(m)),
    }
}

/// What the surrounding application observed for one spawned fetch:
/// the dispatch machinery failed, or the process could not be run, or
/// it exited with a status and its two captured output streams.
pub enum ProcessOutcome {
    /// The worker context could not run or join the blocking wait.
    SchedulingFailed(String),
    /// The process could not be created or its status obtained.
    LaunchFailed(String),
    /// The process ran to an exit status.
    Exited { success: bool, stdout: Vec<u8>, stderr: Vec<u8> },
}

/// Interpret the outcome of one spawned fetch.
///
/// Dispatch and launch failures keep their captured messages under
/// their own error kinds.  A non-success exit is terminal with the
/// process's standard error decoded permissively, whatever stood on
/// standard output.  On a success exit the standard output must be
/// valid UTF-8 — nothing partial is kept of invalid bytes — and must
/// decode to one metadata record.
pub fn interpret_outcome(outcome: ProcessOutcome) -> (r: Result<YtDlpResult, FetchError>)
    ensures
        (match outcome {
            ProcessOutcome::SchedulingFailed(m) => r matches Err(e) && e
                matches FetchError::Scheduling(t) && t@ == m@,
            ProcessOutcome::LaunchFailed(m) => r matches Err(e) && e
                matches FetchError::ProcessLaunch(t) && t@ == m@,
            ProcessOutcome::Exited { success, stdout, stderr } => {
                if !success {
                    r matches Err(e) && e matches FetchError::ScriptExecution(t) && t@
                        == lossy_decode(stderr@)
                } else if !valid_utf8(stdout@) {
                    r matches Err(e) && e is InvalidEncoding
                } else {
                    {
                        &&& r is Ok <==> decode_ok(decode_utf8(stdout@))
                        &&& r matches Ok(rec) ==> rec@ == decoded_record(decode_utf8(stdout@))
                        &&& r matches Err(e) ==> e is MalformedOutput
                    }
                }
            },
        }),
{
    match outcome {
        ProcessOutcome::SchedulingFailed(m) => Err(FetchError::Scheduling(m)),
        ProcessOutcome::LaunchFailed(m) => Err(FetchError::ProcessLaunch(m)),
        ProcessOutcome::Exited { success, stdout, stderr } => {
            if !success {
                let text = utf8_decode_lossy(&stderr);
                Err(FetchError::ScriptExecution(text))
            } else {
                match utf8_decode(stdout) {
                    Err(e) => {
                        let text = utf8_error_text(&e);
                        Err(FetchError::InvalidEncoding(text))
                    },
                    Ok(text) => decode_metadata(text.as_str()),
                }
            }
        },
    }
}

/// Invocations are independent: the record one fetch returns is
/// pinned by that fetch's own decoded output alone, so two fetches
/// that observed the same output agree, and no other invocation's
/// outcome enters the statement at all.
pub proof fn lemma_fetch_independence(s: Seq<char>, v1: YtDlpResultView, v2: YtDlpResultView)
    requires
        decode_ok(s),
        v1 == decoded_record(s),
        v2 == decoded_record(s),
    ensures
        v1 == v2,
{
}

} // verus!
