//! Error taxonomy of the engine and the result of one executed action.

use vstd::prelude::*;

verus! {

/// Why an action, or the observation that guards it, did not run to a
/// successful exit.
///
/// The variants separate failures that happen before a process is spawned
/// (enumeration, probing, argument resolution, the spawn itself) from a
/// process that ran and exited non-zero, which carries the captured
/// standard-error text.
#[derive(Debug)]
pub enum EngineError {
    /// Reading a directory or file needed by a rule failed.
    IoError,
    /// A state observation failed or returned unusable data.
    ProbeError,
    /// Computing an action's dynamically-resolved arguments failed.
    ResolutionError,
    /// The subprocess could not be started at all.
    SpawnError,
    /// The subprocess ran and exited non-zero; the field holds its
    /// captured standard-error text.
    ExecutionFailure(String),
}

impl EngineError {
    /// The short name of the error's variant.
    pub open spec fn spec_label(&self) -> Seq<char> {
        match self {
            EngineError::IoError => "IoError"@,
            EngineError::ProbeError => "ProbeError"@,
            EngineError::ResolutionError => "ResolutionError"@,
            EngineError::SpawnError => "SpawnError"@,
            EngineError::ExecutionFailure(_) => "ExecutionFailure"@,
        }
    }

    /// Renders the variant name, for reporting.
    pub fn label(&self) -> (r: String)
        ensures
            r@ == self.spec_label(),
    {
        match self {
            EngineError::IoError => String::from_str("IoError"),
            EngineError::ProbeError => String::from_str("ProbeError"),
            EngineError::ResolutionError => String::from_str("ResolutionError"),
            EngineError::SpawnError => String::from_str("SpawnError"),
            EngineError::ExecutionFailure(_) => String::from_str("ExecutionFailure"),
        }
    }
}

/// What one spawned action produced: its exit disposition and its captured
/// output streams.  Owned by the caller that ran the action; never retained
/// by the engine.
pub struct ExecutionResult {
    /// Whether the process exited successfully (exit code zero).
    pub success: bool,
    /// The full captured standard output.
    pub stdout: String,
    /// The full captured standard error.
    pub stderr: String,
}

/// Turns a finished subprocess's exit disposition and captured streams into
/// the engine's outcome: a successful exit yields an [`ExecutionResult`]
/// holding both streams, and a non-zero exit yields
/// [`EngineError::ExecutionFailure`] carrying the standard-error text
/// verbatim, so a failure is never swallowed.
pub fn classify_outcome(success: bool, stdout: String, stderr: String) -> (r: Result<
    ExecutionResult,
    EngineError,
>)
    ensures
        success ==> (r matches Ok(res) && res.success && res.stdout@ == stdout@ && res.stderr@
            == stderr@),
        !success ==> (r matches Err(e) && e matches EngineError::ExecutionFailure(s) && s@
            == stderr@),
{
    if success {
        Ok(ExecutionResult { success: true, stdout, stderr })
    } else {
        Err(EngineError::ExecutionFailure(stderr))
    }
}

} // verus!
