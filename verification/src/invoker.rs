use vstd::prelude::*;
use vstd::utf8::decode_utf8;
use vstd::utf8::valid_utf8;
use crate::model::CodeResponse;
use crate::model::RunOutcome;
use crate::model::outcome_equivalent;

verus! {

/// What `String::from_utf8_lossy` returns for a given byte sequence. The
/// result depends on the bytes alone; its full definition (replacement of
/// each maximal invalid subsequence by U+FFFD) is not restated here.
pub uninterp spec fn lossy_of(bytes: Seq<u8>) -> Seq<char>;

/// `text` is the lossy UTF-8 decoding of `bytes`: on valid UTF-8 input it
/// is exactly the decoded character sequence, on empty input it is empty,
/// and in every case it is the one value `lossy_of` gives for these bytes.
pub open spec fn decodes_to(bytes: Seq<u8>, text: Seq<char>) -> bool {
    &&& text == lossy_of(bytes)
    &&& bytes.len() == 0 ==> text.len() == 0
    &&& valid_utf8(bytes) ==> text == decode_utf8(bytes)
}

/// The diagnostic placed in `stderr` when the temporary file could not be
/// written: a fixed prefix followed by the operating system's message.
pub open spec fn write_error_text(detail: Seq<char>) -> Seq<char> {
    "Error interno del servidor: "@ + detail
}

/// The diagnostic placed in `stderr` when the external executable could not
/// be started: a fixed prefix followed by the operating system's message.
pub open spec fn spawn_error_text(detail: Seq<char>) -> Seq<char> {
    "Error ejecutando código: "@ + detail
}

/// How a response reports an observed outcome.
///
/// An internal failure before the tool produced anything leaves `stdout`
/// empty, reports failure, and carries its diagnostic in `stderr`; a
/// completed run passes both captured streams through lossily decoded and
/// mirrors the tool's exit status in `success`.
pub open spec fn response_matches(outcome: RunOutcome, r: CodeResponse) -> bool {
    match outcome {
        RunOutcome::WriteFailed(detail) => {
            &&& !r.success
            &&& r.stdout@ == Seq::<char>::empty()
            &&& r.stderr@ == write_error_text(detail@)
        },
        RunOutcome::SpawnFailed(detail) => {
            &&& !r.success
            &&& r.stdout@ == Seq::<char>::empty()
            &&& r.stderr@ == spawn_error_text(detail@)
        },
        RunOutcome::Completed { exit_ok, stdout, stderr } => {
            &&& r.success == exit_ok
            &&& decodes_to(stdout@, r.stdout@)
            &&& decodes_to(stderr@, r.stderr@)
        },
    }
}

/// Relies on `String::from_utf8_lossy`: it decodes the bytes as UTF-8,
/// replacing invalid sequences with U+FFFD, so valid UTF-8 input decodes
/// exactly and empty input gives the empty string.
#[verifier::external_body]
fn lossy_decode(bytes: &Vec<u8>) -> (r: String)
    ensures
        r@ == lossy_of(bytes@),
        decodes_to(bytes@, r@),
{
    String::from_utf8_lossy(bytes.as_slice()).into_owned()
}

/// A diagnostic message: the fixed prefix followed by the detail text.
fn compose_message(prefix: &str, detail: &str) -> (r: String)
    ensures
        r@ == prefix@ + detail@,
{
    let mut message = String::from_str(prefix);
    message.append(detail);
    message
}

/// Map what one invocation observed to the response returned to the caller.
///
/// Every outcome is answered — no input is rejected and nothing panics —
/// and the response reports it exactly as `response_matches` states.
pub fn respond(outcome: RunOutcome) -> (r: CodeResponse)
    ensures
        response_matches(outcome, r),
{
    match outcome {
        RunOutcome::WriteFailed(detail) => CodeResponse {
            success: false,
            stdout: String::new(),
            stderr: compose_message("Error interno del servidor: ", detail.as_str()),
        },
        RunOutcome::SpawnFailed(detail) => CodeResponse {
            success: false,
            stdout: String::new(),
            stderr: compose_message("Error ejecutando código: ", detail.as_str()),
        },
        RunOutcome::Completed { exit_ok, stdout, stderr } => CodeResponse {
            success: exit_ok,
            stdout: lossy_decode(&stdout),
            stderr: lossy_decode(&stderr),
        },
    }
}

/// A response reports success exactly when the tool itself ran to
/// completion and exited cleanly: internal failures can never claim it.
pub proof fn lemma_success_iff_clean_exit(outcome: RunOutcome, r: CodeResponse)
    requires
        response_matches(outcome, r),
    ensures
        r.success <==> (outcome matches RunOutcome::Completed { exit_ok, .. } && exit_ok),
{
}

/// When the temporary file could not be written, the response reports
/// failure, an empty `stdout`, and a non-empty diagnostic in `stderr`.
pub proof fn lemma_write_failure_response(detail: String, r: CodeResponse)
    requires
        response_matches(RunOutcome::WriteFailed(detail), r),
    ensures
        !r.success,
        r.stdout@.len() == 0,
        r.stderr@ == write_error_text(detail@),
        r.stderr@.len() > 0,
{
    reveal_strlit("Error interno del servidor: ");
}

/// When the external executable could not be started, the response reports
/// failure, an empty `stdout`, and a non-empty diagnostic in `stderr`.
pub proof fn lemma_spawn_failure_response(detail: String, r: CodeResponse)
    requires
        response_matches(RunOutcome::SpawnFailed(detail), r),
    ensures
        !r.success,
        r.stdout@.len() == 0,
        r.stderr@ == spawn_error_text(detail@),
        r.stderr@.len() > 0,
{
    reveal_strlit("Error ejecutando código: ");
}

/// A completed run is passed through exactly: `success` mirrors the exit
/// status, and each stream that the tool wrote as valid UTF-8 — or wrote
/// nothing to — appears in the response unchanged by the decoding.
pub proof fn lemma_completed_passthrough(exit_ok: bool, out: Vec<u8>, err: Vec<u8>, r: CodeResponse)
    requires
        response_matches(RunOutcome::Completed { exit_ok, stdout: out, stderr: err }, r),
    ensures
        r.success == exit_ok,
        valid_utf8(out@) ==> r.stdout@ == decode_utf8(out@),
        valid_utf8(err@) ==> r.stderr@ == decode_utf8(err@),
        out@.len() == 0 ==> r.stdout@.len() == 0,
        err@.len() == 0 ==> r.stderr@.len() == 0,
{
}

/// Responding is a pure function of the observed outcome: two invocations
/// that observe the same data are answered with the same response, with no
/// state carried from one to the other.
pub proof fn lemma_respond_deterministic(
    a: RunOutcome,
    b: RunOutcome,
    r1: CodeResponse,
    r2: CodeResponse,
)
    requires
        outcome_equivalent(a, b),
        response_matches(a, r1),
        response_matches(b, r2),
    ensures
        r1.success == r2.success,
        r1.stdout@ == r2.stdout@,
        r1.stderr@ == r2.stderr@,
{
}

} // verus!
