use bin_wrapper::completion::{
    wrapper_exit_code, ChildStatus, RunOutcome, Synchronizer, DRAIN_FAILURE_EXIT_CODE,
    SIGNAL_TERMINATION_EXIT_CODE, SPAWN_FAILURE_EXIT_CODE,
};
use bin_wrapper::invocation::ChildInvocation;

#[test]
fn exit_code_passthrough_verbatim() {
    assert_eq!(wrapper_exit_code(&RunOutcome::ChildDone(ChildStatus::Exited(0))), 0);
    assert_eq!(wrapper_exit_code(&RunOutcome::ChildDone(ChildStatus::Exited(1))), 1);
    assert_eq!(wrapper_exit_code(&RunOutcome::ChildDone(ChildStatus::Exited(42))), 42);
}

#[test]
fn gate_stop_exits_zero() {
    assert_eq!(wrapper_exit_code(&RunOutcome::GateStop), 0);
}

#[test]
fn signal_termination_has_distinct_nonzero_sentinel() {
    let code = wrapper_exit_code(&RunOutcome::ChildDone(ChildStatus::Signaled));
    assert_eq!(code, SIGNAL_TERMINATION_EXIT_CODE);
    assert_ne!(code, 0);
}

#[test]
fn spawn_failure_has_distinct_nonzero_sentinel() {
    let code = wrapper_exit_code(&RunOutcome::SpawnFailed);
    assert_eq!(code, SPAWN_FAILURE_EXIT_CODE);
    assert_ne!(code, 0);
    assert_ne!(code, SIGNAL_TERMINATION_EXIT_CODE);
}

#[test]
fn drain_failure_is_fatal_nonzero() {
    let code = wrapper_exit_code(&RunOutcome::DrainFailed);
    assert_eq!(code, DRAIN_FAILURE_EXIT_CODE);
    assert_ne!(code, 0);
}

#[test]
fn synchronizer_not_complete_until_both_pipes_and_child() {
    // A slow-writing child: its exit status arrives while both drainers
    // are still reading. The synchronizer must not report a result until
    // the last drainer is joined.
    let mut sync = Synchronizer::new(2);
    assert!(!sync.is_complete());
    sync.note_child_exit(ChildStatus::Exited(0));
    assert!(!sync.is_complete());
    sync.note_drain_done();
    assert!(!sync.is_complete());
    sync.note_drain_done();
    assert!(sync.is_complete());
    let result = sync.into_result(30, 20);
    assert_eq!(result.status, ChildStatus::Exited(0));
    assert_eq!(result.wall_duration_ms, 30);
    assert_eq!(result.process_duration_ms, 20);
}

#[test]
fn synchronizer_with_no_drainers_waits_on_child_alone() {
    let mut sync = Synchronizer::new(0);
    assert!(!sync.is_complete());
    sync.note_child_exit(ChildStatus::Signaled);
    assert!(sync.is_complete());
    let result = sync.into_result(7, 3);
    assert_eq!(result.status, ChildStatus::Signaled);
}

#[test]
fn invocation_preserves_command_and_argument_order() {
    let inv = ChildInvocation::new(
        String::from("echo"),
        vec![String::from("b"), String::from("a")],
    );
    assert_eq!(inv.command, "echo");
    assert_eq!(inv.args, vec!["b", "a"]);
}
