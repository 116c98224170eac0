use spawn_ptrace::error::SpawnError;
use spawn_ptrace::spawner::await_trace_stop;

#[test]
fn wait_on_foreign_process_is_rejected() {
    // Process 1 exists but is no child of this process, so the one
    // blocking status wait fails at once and the call is rejected.
    let r = await_trace_stop(1);
    assert!(matches!(r, Err(SpawnError::ChildStateNotCorrect)));
}
