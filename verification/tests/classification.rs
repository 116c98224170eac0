use spawn_ptrace::error::SpawnError;
use spawn_ptrace::spawner::{trace_request_error, verify_stop_report};
use spawn_ptrace::status::{StatusReport, SIGTRAP};

#[test]
fn trap_stop_yields_handle() {
    let r = verify_stop_report(
        1234,
        Ok(StatusReport::StoppedBySignal { pid: 1234, signal: SIGTRAP }),
    );
    assert_eq!(r.unwrap().pid(), 1234);
}

#[test]
fn stop_by_other_signal_is_rejected() {
    let r = verify_stop_report(
        1234,
        Ok(StatusReport::StoppedBySignal { pid: 1234, signal: 19 }),
    );
    assert!(matches!(r, Err(SpawnError::ChildStateNotCorrect)));
}

#[test]
fn exit_is_rejected() {
    let r = verify_stop_report(1234, Ok(StatusReport::Exited { pid: 1234, code: 0 }));
    assert!(matches!(r, Err(SpawnError::ChildStateNotCorrect)));
}

#[test]
fn termination_by_signal_is_rejected() {
    let r = verify_stop_report(
        1234,
        Ok(StatusReport::TerminatedBySignal { pid: 1234, signal: 9 }),
    );
    assert!(matches!(r, Err(SpawnError::ChildStateNotCorrect)));
}

#[test]
fn unclassified_report_is_rejected() {
    let r = verify_stop_report(1234, Ok(StatusReport::Other));
    assert!(matches!(r, Err(SpawnError::ChildStateNotCorrect)));
}

#[test]
fn trap_stop_of_other_process_is_rejected() {
    let r = verify_stop_report(
        1234,
        Ok(StatusReport::StoppedBySignal { pid: 1235, signal: SIGTRAP }),
    );
    assert!(matches!(r, Err(SpawnError::ChildStateNotCorrect)));
}

#[test]
fn failed_wait_is_rejected() {
    // 10 is ECHILD on Linux: the wait found no such child to report on.
    let r = verify_stop_report(1234, Err(10));
    assert!(matches!(r, Err(SpawnError::ChildStateNotCorrect)));
}

#[test]
fn recognized_trace_errno_is_carried() {
    let e = trace_request_error(1);
    assert_eq!(e, SpawnError::TraceRequestFailed { errno: 1 });
    assert_eq!(e.os_errno(), Some(1));
}

#[test]
fn unrecognized_trace_errno_is_generic() {
    let e = trace_request_error(0);
    assert_eq!(e, SpawnError::UnknownTraceRequest);
    assert_eq!(e.os_errno(), None);
}

#[test]
fn protocol_violation_carries_no_errno() {
    assert_eq!(SpawnError::ChildStateNotCorrect.os_errno(), None);
}
