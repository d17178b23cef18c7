use post_build_hook_queue::logevent::{LogKind, LogLevel};
use post_build_hook_queue::outcome::ProcessOutcome;
use post_build_hook_queue::supervisor::{
    after_termination, exit_event, poll_step, KillStatus, SupervisorStep, WaitStatus,
    SIGNING_TIMEOUT_SECS, UPLOAD_TIMEOUT_SECS,
};

#[test]
fn deadlines_are_sixty_and_six_hundred_seconds() {
    assert_eq!(SIGNING_TIMEOUT_SECS, 60);
    assert_eq!(UPLOAD_TIMEOUT_SECS, 600);
}

#[test]
fn exited_child_finishes_with_its_code() {
    match poll_step(10, 60_000, WaitStatus::Exited(Some(3))) {
        SupervisorStep::Finish(ProcessOutcome::Completed(Some(code))) => assert_eq!(code, 3),
        _ => panic!("an exited child is reported with its exit code"),
    }
    assert!(matches!(
        poll_step(10, 60_000, WaitStatus::Exited(None)),
        SupervisorStep::Finish(ProcessOutcome::Completed(None))
    ));
}

#[test]
fn running_child_within_deadline_keeps_polling() {
    assert!(matches!(
        poll_step(59_999, 60_000, WaitStatus::StillRunning),
        SupervisorStep::KeepPolling
    ));
    // The deadline itself has not been exceeded yet.
    assert!(matches!(
        poll_step(60_000, 60_000, WaitStatus::StillRunning),
        SupervisorStep::KeepPolling
    ));
}

#[test]
fn child_past_deadline_is_terminated_and_times_out() {
    assert!(matches!(
        poll_step(60_001, 60_000, WaitStatus::StillRunning),
        SupervisorStep::Terminate
    ));
    assert!(matches!(
        after_termination(KillStatus::Delivered),
        Ok(ProcessOutcome::TimedOut)
    ));
}

#[test]
fn kill_on_already_exited_child_is_not_an_error() {
    assert!(matches!(
        after_termination(KillStatus::AlreadyGone),
        Ok(ProcessOutcome::TimedOut)
    ));
}

#[test]
fn kill_failure_is_fatal_for_the_daemon() {
    let r = after_termination(KillStatus::Failed(String::from("operation not permitted")));
    assert_eq!(r.unwrap_err(), "operation not permitted");
}

#[test]
fn exit_events_carry_the_right_severity() {
    let clean = exit_event(Some(0));
    assert_eq!(clean.kind, LogKind::ChildExitedCleanly);
    assert_eq!(clean.level, LogLevel::Debug);
    let bad = exit_event(Some(7));
    assert_eq!(bad.kind, LogKind::ChildExitedNonZero);
    assert_eq!(bad.level, LogLevel::Error);
    let signalled = exit_event(None);
    assert_eq!(signalled.kind, LogKind::ChildExitedWithoutCode);
    assert_eq!(signalled.level, LogLevel::Error);
}
