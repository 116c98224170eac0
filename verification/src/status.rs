use vstd::prelude::*;

verus! {

/// The signal number of the trace trap, `SIGTRAP`: the stop that the
/// kernel delivers to a trace-requesting process at the point its
/// program image is replaced.
pub const SIGTRAP: i32 = 5;

/// The outcome of one blocking status wait on a process, tagged so that
/// the classification step can match on it exhaustively.
#[derive(Clone, Copy, Debug, PartialEq, Eq, Structural)]
pub enum StatusReport {
    /// The process is alive but stopped by the given signal.
    StoppedBySignal { pid: i32, signal: i32 },
    /// The process exited with the given code.
    Exited { pid: i32, code: i32 },
    /// The process was terminated by the given signal.
    TerminatedBySignal { pid: i32, signal: i32 },
    /// A status change this crate does not classify.
    Other,
}

/// The one success condition of the protocol: the report says that the
/// awaited process is stopped by the trace trap.
pub open spec fn is_trace_trap_stop(report: StatusReport, pid: i32) -> bool {
    report == (StatusReport::StoppedBySignal { pid, signal: SIGTRAP })
}

} // verus!
