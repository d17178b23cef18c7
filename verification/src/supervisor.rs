//! The process supervisor's decisions: spawn one external command, poll it
//! until it exits or its deadline passes, terminate it on timeout. The caller
//! performs the spawn, the polling and the kill; this module decides, from
//! what each attempt observed, what happens next and what outcome results.

use crate::logevent::{event, LogEvent, LogKind};
use crate::outcome::ProcessOutcome;
use vstd::prelude::*;

verus! {

/// Deadline for one signing invocation.
pub const SIGNING_TIMEOUT_SECS: u64 = 60;

/// Deadline for one upload invocation.
pub const UPLOAD_TIMEOUT_SECS: u64 = 600;

/// What one non-blocking wait on the child observed.
#[derive(Clone, Copy, PartialEq, Eq, Structural, Debug)]
pub enum WaitStatus {
    Exited(Option<i32>),
    StillRunning,
}

/// What the supervisor does after one poll: report the outcome, poll again,
/// or terminate the child because its deadline has passed.
pub enum SupervisorStep {
    Finish(ProcessOutcome),
    KeepPolling,
    Terminate,
}

/// What the attempt to terminate a timed-out child reported. `AlreadyGone`
/// is the child exiting between the poll and the kill; it is not an error.
pub enum KillStatus {
    Delivered,
    AlreadyGone,
    Failed(String),
}

/// The decision after one poll: a child that exited is reported with its
/// code; a child still running strictly past the deadline is terminated;
/// otherwise polling continues.
pub open spec fn spec_poll_step(elapsed_ms: u64, timeout_ms: u64, w: WaitStatus) -> SupervisorStep {
    match w {
        WaitStatus::Exited(code) => SupervisorStep::Finish(ProcessOutcome::Completed(code)),
        WaitStatus::StillRunning => if elapsed_ms > timeout_ms {
            SupervisorStep::Terminate
        } else {
            SupervisorStep::KeepPolling
        },
    }
}

pub fn poll_step(elapsed_ms: u64, timeout_ms: u64, w: WaitStatus) -> (s: SupervisorStep)
    ensures
        s == spec_poll_step(elapsed_ms, timeout_ms, w),
{
    match w {
        WaitStatus::Exited(code) => SupervisorStep::Finish(ProcessOutcome::Completed(code)),
        WaitStatus::StillRunning => {
            if elapsed_ms > timeout_ms {
                SupervisorStep::Terminate
            } else {
                SupervisorStep::KeepPolling
            }
        },
    }
}

/// The outcome once a timed-out child has been signalled: a kill that was
/// delivered, or that found the child already gone, yields `TimedOut`; any
/// other kill failure means the daemon can no longer guarantee the child is
/// dead, which is fatal and surfaces as the error text.
pub open spec fn spec_after_termination(k: KillStatus) -> Result<ProcessOutcome, String> {
    match k {
        KillStatus::Delivered => Ok(ProcessOutcome::TimedOut),
        KillStatus::AlreadyGone => Ok(ProcessOutcome::TimedOut),
        KillStatus::Failed(msg) => Err(msg),
    }
}

pub fn after_termination(k: KillStatus) -> (r: Result<ProcessOutcome, String>)
    ensures
        r == spec_after_termination(k),
{
    match k {
        KillStatus::Delivered => Ok(ProcessOutcome::TimedOut),
        KillStatus::AlreadyGone => Ok(ProcessOutcome::TimedOut),
        KillStatus::Failed(msg) => Err(msg),
    }
}

/// The event logged for a child that ran to completion: debug on success,
/// error on a non-zero code, error when a signal left no code at all.
pub fn exit_event(code: Option<i32>) -> (e: LogEvent)
    ensures
        e.wf(),
        code == Some(0i32) ==> e.kind == LogKind::ChildExitedCleanly,
        (code matches Some(c) && c != 0) ==> e.kind == LogKind::ChildExitedNonZero,
        code is None ==> e.kind == LogKind::ChildExitedWithoutCode,
{
    match code {
        Some(c) => {
            if c == 0 {
                event(LogKind::ChildExitedCleanly)
            } else {
                event(LogKind::ChildExitedNonZero)
            }
        },
        None => event(LogKind::ChildExitedWithoutCode),
    }
}

/// A child that exceeds its deadline is terminated and — whenever the
/// termination attempt does not itself fail — yields `TimedOut`, never a
/// normal completion.
pub proof fn lemma_deadline_enforced(elapsed_ms: u64, timeout_ms: u64, k: KillStatus)
    requires
        elapsed_ms > timeout_ms,
        !(k is Failed),
    ensures
        spec_poll_step(elapsed_ms, timeout_ms, WaitStatus::StillRunning) == SupervisorStep::Terminate,
        spec_after_termination(k) == Ok::<ProcessOutcome, String>(ProcessOutcome::TimedOut),
{
}

} // verus!
