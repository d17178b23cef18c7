//! Log events the daemon emits. The library only decides what is logged and
//! at which severity; carrying the events to the journal is the caller's job.

use vstd::prelude::*;

verus! {

#[derive(Clone, Copy, PartialEq, Eq, Structural, Debug)]
pub enum LogLevel {
    Debug,
    Info,
    Warning,
    Error,
}

/// What happened. One variant per event the daemon reports: task receipt,
/// possible truncation, signing/upload start and outcome, timeout and kill,
/// worker faults, and shutdown progress.
#[derive(Clone, Copy, PartialEq, Eq, Structural, Debug)]
pub enum LogKind {
    TaskReceived,
    PossiblyTruncated,
    SigningStarted,
    UploadStarted,
    NotSignedSkipping,
    ChildExitedCleanly,
    ChildExitedNonZero,
    ChildExitedWithoutCode,
    DeadlineExceededKilling,
    SpawnFailed,
    MarkerRemovalFailed,
    WorkerFault,
    ReceiveFailed,
    ShutdownStarted,
    ShutdownComplete,
}

/// The severity each kind of event carries.
pub open spec fn spec_level_of(kind: LogKind) -> LogLevel {
    match kind {
        LogKind::TaskReceived => LogLevel::Debug,
        LogKind::PossiblyTruncated => LogLevel::Warning,
        LogKind::SigningStarted => LogLevel::Info,
        LogKind::UploadStarted => LogLevel::Info,
        LogKind::NotSignedSkipping => LogLevel::Warning,
        LogKind::ChildExitedCleanly => LogLevel::Debug,
        LogKind::ChildExitedNonZero => LogLevel::Error,
        LogKind::ChildExitedWithoutCode => LogLevel::Error,
        LogKind::DeadlineExceededKilling => LogLevel::Error,
        LogKind::SpawnFailed => LogLevel::Error,
        LogKind::MarkerRemovalFailed => LogLevel::Warning,
        LogKind::WorkerFault => LogLevel::Error,
        LogKind::ReceiveFailed => LogLevel::Error,
        LogKind::ShutdownStarted => LogLevel::Info,
        LogKind::ShutdownComplete => LogLevel::Info,
    }
}

/// One emitted event: a kind at its fixed severity.
#[derive(Clone, Copy, PartialEq, Eq, Structural, Debug)]
pub struct LogEvent {
    pub level: LogLevel,
    pub kind: LogKind,
}

impl LogEvent {
    /// The event carries the severity the kind calls for.
    pub open spec fn wf(&self) -> bool {
        self.level == spec_level_of(self.kind)
    }
}

/// The event a kind is reported as, at its fixed severity.
pub open spec fn spec_event(kind: LogKind) -> LogEvent {
    LogEvent { level: spec_level_of(kind), kind }
}

/// Build the event for a kind at its fixed severity.
pub fn event(kind: LogKind) -> (e: LogEvent)
    ensures
        e == spec_event(kind),
        e.kind == kind,
        e.wf(),
{
    let level = match kind {
        LogKind::TaskReceived => LogLevel::Debug,
        LogKind::PossiblyTruncated => LogLevel::Warning,
        LogKind::SigningStarted => LogLevel::Info,
        LogKind::UploadStarted => LogLevel::Info,
        LogKind::NotSignedSkipping => LogLevel::Warning,
        LogKind::ChildExitedCleanly => LogLevel::Debug,
        LogKind::ChildExitedNonZero => LogLevel::Error,
        LogKind::ChildExitedWithoutCode => LogLevel::Error,
        LogKind::DeadlineExceededKilling => LogLevel::Error,
        LogKind::SpawnFailed => LogLevel::Error,
        LogKind::MarkerRemovalFailed => LogLevel::Warning,
        LogKind::WorkerFault => LogLevel::Error,
        LogKind::ReceiveFailed => LogLevel::Error,
        LogKind::ShutdownStarted => LogLevel::Info,
        LogKind::ShutdownComplete => LogLevel::Info,
    };
    LogEvent { level, kind }
}

} // verus!
