use vstd::prelude::*;

verus! {

/// Why a traced spawn failed.
#[derive(Clone, Copy, Debug, PartialEq, Eq, Structural)]
pub enum SpawnError {
    /// The trace-request primitive failed in the child with a
    /// recognized OS error code, which is carried along so callers can
    /// tell the causes apart.
    TraceRequestFailed { errno: i32 },
    /// The trace-request primitive failed with an error this crate does
    /// not model; reported as such rather than coerced to a misleading
    /// specific code.
    UnknownTraceRequest,
    /// Every call succeeded, but the status wait did not report the
    /// trace-trap stop of the awaited process (or the wait itself
    /// failed). No OS error code is attached: the fault is behavioral.
    ChildStateNotCorrect,
}

impl SpawnError {
    /// The OS error code the failure carries, where it carries one.
    pub fn os_errno(&self) -> (r: Option<i32>)
        ensures
            (*self) matches SpawnError::TraceRequestFailed { errno } ==> r == Some(errno),
            self is UnknownTraceRequest ==> r is None,
            self is ChildStateNotCorrect ==> r is None,
    {
        match self {
            SpawnError::TraceRequestFailed { errno } => Some(*errno),
            SpawnError::UnknownTraceRequest => None,
            SpawnError::ChildStateNotCorrect => None,
        }
    }
}

} // verus!
