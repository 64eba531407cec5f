use vstd::prelude::*;

verus! {

/// An inbound run request: the source text to hand to the external tool.
///
/// No validation is performed on the text; any string is accepted.
pub struct CodeRequest {
    pub code: String,
}

/// The record returned for every run request.
///
/// `success` is true exactly when the external tool ran and exited cleanly;
/// any internal failure (temporary-file write, process spawn) forces it to
/// false and places a human-readable diagnostic in `stderr`. `stdout` and
/// `stderr` otherwise carry the tool's two captured streams, decoded as
/// UTF-8 with lossy replacement.
pub struct CodeResponse {
    pub success: bool,
    pub stdout: String,
    pub stderr: String,
}

/// What a single invocation of the external tool was observed to do.
///
/// The steps that touch the operating system — writing the temporary file,
/// spawning the tool, collecting its output — happen outside the library;
/// their result is reported here as plain values.
pub enum RunOutcome {
    /// The source text could not be written to the temporary file; the tool
    /// was never started. Carries the operating system's error message.
    WriteFailed(String),
    /// The external executable could not be started (missing from the search
    /// path, permissions, ...). Carries the operating system's error message.
    SpawnFailed(String),
    /// The tool ran to completion. `exit_ok` is whether its exit status was
    /// the conventional clean exit; `stdout` and `stderr` are the raw bytes
    /// captured from its two output streams.
    Completed { exit_ok: bool, stdout: Vec<u8>, stderr: Vec<u8> },
}

/// Two observed outcomes carry the same data: the same variant, with
/// messages or captured streams equal value for value.
pub open spec fn outcome_equivalent(a: RunOutcome, b: RunOutcome) -> bool {
    match (a, b) {
        (RunOutcome::WriteFailed(d1), RunOutcome::WriteFailed(d2)) => d1@ == d2@,
        (RunOutcome::SpawnFailed(d1), RunOutcome::SpawnFailed(d2)) => d1@ == d2@,
        (
            RunOutcome::Completed { exit_ok: e1, stdout: o1, stderr: r1 },
            RunOutcome::Completed { exit_ok: e2, stdout: o2, stderr: r2 },
        ) => e1 == e2 && o1@ == o2@ && r1@ == r2@,
        _ => false,
    }
}

} // verus!
