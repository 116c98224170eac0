use vstd::prelude::*;

use crate::error::SpawnError;
use crate::status::{is_trace_trap_stop, StatusReport, SIGTRAP};

verus! {

/// A caller-facing attestation that one status wait reported the
/// process with this identifier stopped at its `exec` by the trace
/// trap. Only the classification of a wait outcome constructs one.
#[derive(Clone, Copy, Debug)]
pub struct TracedChild {
    pid: i32,
}

impl TracedChild {
    /// The identifier of the verified-stopped process.
    pub closed spec fn pid_spec(&self) -> i32 {
        self.pid
    }

    /// The identifier of the verified-stopped process.
    pub fn pid(&self) -> (r: i32)
        ensures
            r == self.pid_spec(),
    {
        self.pid
    }
}

/// Relies on nix::sys::ptrace::traceme: asks the kernel to place the
/// calling process under trace supervision by its parent, and reports
/// the OS error code (`Errno as i32`, 0 for nix's `UnknownErrno`) where
/// the request fails. Whether it succeeds depends on the state of the
/// calling process, so nothing is assumed of the outcome.
#[verifier::external_body]
fn traceme_raw() -> (r: Result<(), i32>) {
    match nix::sys::ptrace::traceme() {
        Ok(()) => Ok(()),
        Err(e) => Err(e as i32),
    }
}

/// Relies on nix::sys::wait::waitpid, called on one process identifier
/// with no option flags: blocks until the kernel reports a status
/// change for that process and tags it, or reports the OS error code
/// where the wait itself fails. Which status comes back depends on the
/// awaited process, so nothing is assumed of the outcome.
#[verifier::external_body]
fn wait_for_status(pid: i32) -> (r: Result<StatusReport, i32>) {
    match nix::sys::wait::waitpid(Some(nix::unistd::Pid::from_raw(pid)), None) {
        Ok(nix::sys::wait::WaitStatus::Stopped(p, sig)) => {
            Ok(StatusReport::StoppedBySignal { pid: p.as_raw(), signal: sig as i32 })
        }
        Ok(nix::sys::wait::WaitStatus::Exited(p, code)) => {
            Ok(StatusReport::Exited { pid: p.as_raw(), code })
        }
        Ok(nix::sys::wait::WaitStatus::Signaled(p, sig, _)) => {
            Ok(StatusReport::TerminatedBySignal { pid: p.as_raw(), signal: sig as i32 })
        }
        Ok(_) => Ok(StatusReport::Other),
        Err(e) => Err(e as i32),
    }
}

/// The error that a failed trace request surfaces as, by its raw OS
/// error code: a recognized code is carried as a primitive failure; the
/// unrecognized code is reported as such.
pub open spec fn trace_request_error_spec(errno: i32) -> SpawnError {
    if errno == 0 {
        SpawnError::UnknownTraceRequest
    } else {
        SpawnError::TraceRequestFailed { errno }
    }
}

/// Whether an error is one that a failed trace request can surface as.
pub open spec fn is_trace_request_failure(e: SpawnError) -> bool {
    match e {
        SpawnError::TraceRequestFailed { errno } => errno != 0,
        SpawnError::UnknownTraceRequest => true,
        SpawnError::ChildStateNotCorrect => false,
    }
}

/// Maps the raw outcome of a failed trace request to the library's
/// error.
pub fn trace_request_error(errno: i32) -> (e: SpawnError)
    ensures
        e == trace_request_error_spec(errno),
{
    if errno == 0 {
        SpawnError::UnknownTraceRequest
    } else {
        SpawnError::TraceRequestFailed { errno }
    }
}

/// The child-side half of the protocol: request trace supervision, to
/// be run after the process-creation split and before the program image
/// is replaced. Every failure is surfaced as a trace-request failure,
/// so that the surrounding process creation fails cleanly rather than
/// letting an untraced child proceed to the target program.
pub fn request_trace() -> (r: Result<(), SpawnError>)
    ensures
        r matches Err(e) ==> is_trace_request_failure(e),
{
    match traceme_raw() {
        Ok(()) => Ok(()),
        Err(errno) => Err(trace_request_error(errno)),
    }
}

/// Whether the outcome of the one status wait confirms the trace-trap
/// stop of the awaited process.
pub open spec fn wait_confirms_stop(pid: i32, outcome: Result<StatusReport, i32>) -> bool {
    match outcome {
        Ok(report) => is_trace_trap_stop(report, pid),
        Err(_) => false,
    }
}

/// The verdict of the classification step, by the identifier of the
/// verified-stopped process: success exactly on the trace-trap stop of
/// the awaited process; every other report, and a failed wait, is the
/// code-less protocol violation.
pub open spec fn classify_report(pid: i32, outcome: Result<StatusReport, i32>) -> Result<
    i32,
    SpawnError,
> {
    if wait_confirms_stop(pid, outcome) {
        Ok(pid)
    } else {
        Err(SpawnError::ChildStateNotCorrect)
    }
}

/// A verdict seen by the identifier it attests, for stating contracts
/// over `classify_report`.
pub open spec fn verdict_pid(r: Result<TracedChild, SpawnError>) -> Result<i32, SpawnError> {
    match r {
        Ok(h) => Ok(h.pid_spec()),
        Err(e) => Err(e),
    }
}

/// The classification step: holds the outcome of the single status wait
/// against the required stop condition. A handle comes back exactly
/// when the awaited process is reported stopped by the trace trap;
/// everything else is rejected, terminally, with no retry.
pub fn verify_stop_report(pid: i32, outcome: Result<StatusReport, i32>) -> (r: Result<
    TracedChild,
    SpawnError,
>)
    ensures
        verdict_pid(r) == classify_report(pid, outcome),
{
    match outcome {
        Ok(StatusReport::StoppedBySignal { pid: reported, signal }) => {
            if reported == pid && signal == SIGTRAP {
                Ok(TracedChild { pid })
            } else {
                Err(SpawnError::ChildStateNotCorrect)
            }
        }
        _ => Err(SpawnError::ChildStateNotCorrect),
    }
}

/// The parent-side half of the protocol, run once the process exists:
/// perform exactly one blocking status wait on the new process and
/// classify what it reported. Never polls, never retries: the single
/// outcome decides between the verified-stopped handle and rejection.
pub fn await_trace_stop(pid: i32) -> (r: Result<TracedChild, SpawnError>)
    ensures
        r matches Ok(h) ==> h.pid_spec() == pid,
        r matches Err(e) ==> e == SpawnError::ChildStateNotCorrect,
{
    let outcome = wait_for_status(pid);
    verify_stop_report(pid, outcome)
}

/// A handle only ever attests the trace-trap stop: whenever the
/// classification of a wait outcome succeeds, that outcome was the
/// report that the awaited process stopped on the trace trap — never an
/// exit, a termination, a different signal, or a failed wait.
pub proof fn lemma_handle_only_for_trap_stop(pid: i32, outcome: Result<StatusReport, i32>)
    ensures
        classify_report(pid, outcome) is Ok ==> outcome == Ok::<StatusReport, i32>(
            StatusReport::StoppedBySignal { pid, signal: SIGTRAP },
        ),
{
}

/// An exit in place of the stop is a protocol violation: a wait that
/// reports the awaited process exited — with any code, for any process
/// identifier — is rejected with the code-less error, never classified
/// as success.
pub proof fn lemma_exit_is_rejected(pid: i32, reported: i32, code: i32)
    ensures
        classify_report(pid, Ok(StatusReport::Exited { pid: reported, code })) == Err::<
            i32,
            SpawnError,
        >(SpawnError::ChildStateNotCorrect),
{
}

/// One wait decides the call: every outcome of the single status wait
/// maps to a terminal verdict — the success verdict exactly on the
/// trace-trap stop of the awaited process, the rejection on every other
/// report and on a failed wait. No outcome calls for a second wait.
pub proof fn lemma_single_wait_decides(pid: i32, outcome: Result<StatusReport, i32>)
    ensures
        wait_confirms_stop(pid, outcome) ==> classify_report(pid, outcome) == Ok::<
            i32,
            SpawnError,
        >(pid),
        !wait_confirms_stop(pid, outcome) ==> classify_report(pid, outcome) == Err::<
            i32,
            SpawnError,
        >(SpawnError::ChildStateNotCorrect),
{
}

/// A failed trace request is surfaced as a creation failure in its own
/// right: the mapped error always carries the primitive-failure
/// identity — the OS code where one is recognized, the unrecognized
/// marker otherwise — and is never the protocol-violation error.
pub proof fn lemma_trace_failure_is_primitive(errno: i32)
    ensures
        is_trace_request_failure(trace_request_error_spec(errno)),
        trace_request_error_spec(errno) != SpawnError::ChildStateNotCorrect,
        errno != 0 ==> trace_request_error_spec(errno) == (SpawnError::TraceRequestFailed {
            errno,
        }),
        errno == 0 ==> trace_request_error_spec(errno) == SpawnError::UnknownTraceRequest,
{
}

} // verus!
