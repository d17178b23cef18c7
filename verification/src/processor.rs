//! The task processor: for one claimed artifact, sign (when a key is
//! configured), then upload (when a destination is configured), with the
//! status marker placed just before the upload spawns and cleared after it
//! ends, whatever its outcome.
//!
//! The processor is a state machine. The caller performs each action it
//! hands back — spawn a supervised command, place or clear the marker — and
//! reports what happened; the processor decides what follows. Signing is a
//! hard gate: an artifact whose signing did not complete successfully is
//! abandoned, and no upload is ever invoked for it.

use crate::command::{
    sign_command, spec_sign_args, spec_upload_args, upload_command, CommandLine,
};
use crate::config::DaemonConfig;
use crate::logevent::{event, spec_event, LogEvent, LogKind};
use crate::marker::{marker_name, spec_marker_name};
use crate::outcome::ProcessOutcome;
use crate::supervisor::{SIGNING_TIMEOUT_SECS, UPLOAD_TIMEOUT_SECS};
use crate::task::Task;
use vstd::prelude::*;

verus! {

/// Where one task stands between its actions.
#[derive(Clone, Copy, PartialEq, Eq, Structural, Debug)]
pub enum TaskPhase {
    Ready,
    Signing,
    PlacingMarker,
    Uploading,
    ClearingMarker,
    Finished,
}

/// The terminal result of one task. Every variant is logged, none
/// propagates: a bad task never stops the pool.
pub enum TaskDisposition {
    /// Neither signing key nor upload destination configured: the task is a
    /// receipt-only no-op, intentional for dry-run deployments.
    NothingConfigured,
    /// Signing did not complete successfully; the upload was withheld.
    AbandonedUnsigned,
    /// Signing succeeded but no upload destination is configured.
    SignedOnly,
    /// The upload ran; its outcome, whatever it was.
    UploadEnded(ProcessOutcome),
}

/// What the caller must do next for the artifact in hand.
pub enum TaskAction {
    /// Spawn the signing command under its deadline and report the outcome.
    InvokeSigning(CommandLine),
    /// Create the status marker with this name, then report back.
    PlaceMarker(Vec<u8>),
    /// Spawn the upload command under its deadline and report the outcome.
    InvokeUpload(CommandLine),
    /// Remove the status marker with this name (best effort), then report
    /// whether removal worked.
    ClearMarker(Vec<u8>),
    /// The task has reached a terminal outcome.
    Done(TaskDisposition),
}

/// One decision: the next action, and the events to log for it.
pub struct TaskStep {
    pub action: TaskAction,
    pub logs: Vec<LogEvent>,
}

/// The per-task state machine.
pub struct TaskProcessor {
    pub task: Task,
    pub config: DaemonConfig,
    pub phase: TaskPhase,
    /// Model of the filesystem marker for this artifact: true between the
    /// caller's report that it was placed and the order to clear it.
    pub marker_present: bool,
    /// The upload outcome held while the marker is being cleared, so the
    /// terminal disposition can still report it.
    pub pending_outcome: Option<ProcessOutcome>,
    /// History: an upload invocation has been handed out for the artifact.
    pub upload_invoked: Ghost<bool>,
    /// History: the outcome the signing phase ended with, if it ran.
    pub sign_observed: Ghost<Option<ProcessOutcome>>,
}

impl TaskProcessor {
    /// The signing phase ran and reported success.
    pub open spec fn signing_passed(&self) -> bool {
        self.sign_observed@ matches Some(o) && o.is_success()
    }

    /// The state invariant. Its two load-bearing clauses: an upload is
    /// invoked only once signing has passed (when a key is configured), and
    /// the marker exists only between marker placement and marker clearing —
    /// never before the upload spawns, never after the task finishes.
    pub open spec fn wf(&self) -> bool {
        &&& self.marker_present ==> (self.phase is Uploading || self.phase is ClearingMarker)
        &&& self.phase is Signing ==> self.config.wants_signing() && !self.upload_invoked@
        &&& self.phase is PlacingMarker ==> self.config.wants_upload() && spec_marker_name(
            self.task@,
        ) is Some && (self.config.wants_signing() ==> self.signing_passed())
        &&& self.phase is Uploading ==> self.config.wants_upload() && (self.marker_present
            <==> spec_marker_name(self.task@) is Some)
        &&& self.phase is ClearingMarker ==> self.marker_present && self.pending_outcome is Some
            && spec_marker_name(self.task@) is Some
        &&& self.upload_invoked@ ==> self.config.wants_upload() && (self.config.wants_signing()
            ==> self.signing_passed())
    }
}

/// How entering the upload phase looks from outside: with a destination
/// configured, the marker is placed first when the path yields a marker
/// name, else the upload spawns at once; with no destination the task ends
/// with the given disposition.
pub open spec fn spec_staged_upload(
    config: DaemonConfig,
    path: Seq<u8>,
    post: TaskProcessor,
    s: TaskStep,
    done: TaskDisposition,
) -> bool {
    match config.upload_to {
        Some(dest) => match spec_marker_name(path) {
            Some(name) => {
                &&& (s.action matches TaskAction::PlaceMarker(n) && n@ == name)
                &&& post.phase is PlacingMarker
                &&& !post.marker_present
                &&& s.logs@ == Seq::<LogEvent>::empty()
            },
            None => {
                &&& (s.action matches TaskAction::InvokeUpload(c) && c.program@ == config.tool@
                    && c.arg_views() == spec_upload_args(dest@, path) && c.timeout_secs
                    == UPLOAD_TIMEOUT_SECS)
                &&& post.phase is Uploading
                &&& !post.marker_present
                &&& post.upload_invoked@
                &&& s.logs@ == seq![spec_event(LogKind::UploadStarted)]
            },
        },
        None => {
            &&& (s.action matches TaskAction::Done(d) && d == done)
            &&& post.phase is Finished
            &&& !post.marker_present
            &&& s.logs@ == Seq::<LogEvent>::empty()
        },
    }
}

impl TaskProcessor {
    /// Enter the upload phase (or finish, when no destination is
    /// configured). Reached from `start` when no key is configured, or after
    /// a successful signing.
    fn stage_upload(&mut self, done: TaskDisposition) -> (s: TaskStep)
        requires
            old(self).wf(),
            !old(self).marker_present,
            old(self).phase is Ready || old(self).phase is Signing,
            old(self).config.wants_signing() ==> old(self).signing_passed(),
        ensures
            final(self).wf(),
            final(self).task == old(self).task,
            final(self).config == old(self).config,
            final(self).sign_observed == old(self).sign_observed,
            spec_staged_upload(old(self).config, old(self).task@, *final(self), s, done),
    {
        if self.config.upload_to.is_some() {
            match marker_name(self.task.path.bytes()) {
                Some(name) => {
                    self.phase = TaskPhase::PlacingMarker;
                    TaskStep { action: TaskAction::PlaceMarker(name), logs: Vec::new() }
                },
                None => {
                    let dest = self.config.upload_to.as_ref().unwrap();
                    let c = upload_command(&self.config.tool, dest, self.task.path.bytes());
                    self.phase = TaskPhase::Uploading;
                    self.upload_invoked = Ghost(true);
                    let mut logs: Vec<LogEvent> = Vec::new();
                    logs.push(event(LogKind::UploadStarted));
                    proof {
                        assert(logs@ =~= seq![spec_event(LogKind::UploadStarted)]);
                    }
                    TaskStep { action: TaskAction::InvokeUpload(c), logs }
                },
            }
        } else {
            self.phase = TaskPhase::Finished;
            TaskStep { action: TaskAction::Done(done), logs: Vec::new() }
        }
    }

    /// Take on one task. With a key configured the first action is the
    /// signing invocation; otherwise the task goes straight to the upload
    /// phase, or finishes at once when nothing is configured.
    pub fn start(task: Task, config: DaemonConfig) -> (r: (TaskProcessor, TaskStep))
        ensures
            r.0.wf(),
            r.0.task == task,
            r.0.config == config,
            config.wants_signing() ==> ((r.1.action matches TaskAction::InvokeSigning(c)
                && config.signing_key matches Some(k) && c.program@ == config.tool@
                && c.arg_views() == spec_sign_args(k@, task@) && c.timeout_secs
                == SIGNING_TIMEOUT_SECS) && r.0.phase is Signing && !r.0.upload_invoked@
                && r.1.logs@ == seq![spec_event(LogKind::SigningStarted)]),
            !config.wants_signing() ==> spec_staged_upload(
                config,
                task@,
                r.0,
                r.1,
                TaskDisposition::NothingConfigured,
            ),
    {
        let mut p = TaskProcessor {
            task,
            config,
            phase: TaskPhase::Ready,
            marker_present: false,
            pending_outcome: None,
            upload_invoked: Ghost(false),
            sign_observed: Ghost(None),
        };
        if p.config.signing_key.is_some() {
            let key = p.config.signing_key.as_ref().unwrap();
            let c = sign_command(&p.config.tool, key, p.task.path.bytes());
            p.phase = TaskPhase::Signing;
            let mut logs: Vec<LogEvent> = Vec::new();
            logs.push(event(LogKind::SigningStarted));
            proof {
                assert(logs@ =~= seq![spec_event(LogKind::SigningStarted)]);
            }
            (p, TaskStep { action: TaskAction::InvokeSigning(c), logs })
        } else {
            let s = p.stage_upload(TaskDisposition::NothingConfigured);
            (p, s)
        }
    }

    /// The signing invocation ended. Anything but a clean zero exit abandons
    /// the task with a warning — unsigned artifacts are never uploaded; on
    /// success the task moves on to the upload phase.
    pub fn on_signing_ended(&mut self, outcome: ProcessOutcome) -> (s: TaskStep)
        requires
            old(self).wf(),
            old(self).phase is Signing,
        ensures
            final(self).wf(),
            final(self).task == old(self).task,
            final(self).config == old(self).config,
            final(self).sign_observed@ == Some(outcome),
            !outcome.is_success() ==> ((s.action matches TaskAction::Done(d)
                && d is AbandonedUnsigned) && final(self).phase is Finished
                && !final(self).upload_invoked@ && !final(self).marker_present && s.logs@ == seq![
                spec_event(LogKind::NotSignedSkipping),
            ]),
            outcome.is_success() ==> spec_staged_upload(
                old(self).config,
                old(self).task@,
                *final(self),
                s,
                TaskDisposition::SignedOnly,
            ),
    {
        let ok = outcome.succeeded();
        self.sign_observed = Ghost(Some(outcome));
        if ok {
            self.stage_upload(TaskDisposition::SignedOnly)
        } else {
            self.phase = TaskPhase::Finished;
            let mut logs: Vec<LogEvent> = Vec::new();
            logs.push(event(LogKind::NotSignedSkipping));
            proof {
                assert(logs@ =~= seq![spec_event(LogKind::NotSignedSkipping)]);
            }
            TaskStep { action: TaskAction::Done(TaskDisposition::AbandonedUnsigned), logs }
        }
    }

    /// The status marker is in place; the upload may now spawn.
    pub fn on_marker_placed(&mut self) -> (s: TaskStep)
        requires
            old(self).wf(),
            old(self).phase is PlacingMarker,
        ensures
            final(self).wf(),
            final(self).task == old(self).task,
            final(self).config == old(self).config,
            final(self).phase is Uploading,
            final(self).marker_present,
            final(self).upload_invoked@,
            (s.action matches TaskAction::InvokeUpload(c) && old(self).config.upload_to matches Some(
                dest,
            ) && c.program@ == old(self).config.tool@ && c.arg_views() == spec_upload_args(
                dest@,
                old(self).task@,
            ) && c.timeout_secs == UPLOAD_TIMEOUT_SECS),
            s.logs@ == seq![spec_event(LogKind::UploadStarted)],
    {
        self.marker_present = true;
        let dest = self.config.upload_to.as_ref().unwrap();
        let c = upload_command(&self.config.tool, dest, self.task.path.bytes());
        self.phase = TaskPhase::Uploading;
        self.upload_invoked = Ghost(true);
        let mut logs: Vec<LogEvent> = Vec::new();
        logs.push(event(LogKind::UploadStarted));
        proof {
            assert(logs@ =~= seq![spec_event(LogKind::UploadStarted)]);
        }
        TaskStep { action: TaskAction::InvokeUpload(c), logs }
    }

    /// The upload invocation ended — success, failure or timeout alike: when
    /// a marker was placed, the next action clears it unconditionally;
    /// otherwise the task is finished with the upload's outcome.
    pub fn on_upload_ended(&mut self, outcome: ProcessOutcome) -> (s: TaskStep)
        requires
            old(self).wf(),
            old(self).phase is Uploading,
        ensures
            final(self).wf(),
            final(self).task == old(self).task,
            final(self).config == old(self).config,
            old(self).marker_present ==> ((s.action matches TaskAction::ClearMarker(n)
                && spec_marker_name(old(self).task@) == Some(n@))
                && final(self).phase is ClearingMarker
                && final(self).pending_outcome == Some(outcome)
                && s.logs@ == Seq::<LogEvent>::empty()),
            !old(self).marker_present ==> ((s.action matches TaskAction::Done(d) && d
                == TaskDisposition::UploadEnded(outcome)) && final(self).phase is Finished
                && !final(self).marker_present),
    {
        if self.marker_present {
            let name = marker_name(self.task.path.bytes()).unwrap();
            self.pending_outcome = Some(outcome);
            self.phase = TaskPhase::ClearingMarker;
            TaskStep { action: TaskAction::ClearMarker(name), logs: Vec::new() }
        } else {
            self.phase = TaskPhase::Finished;
            TaskStep {
                action: TaskAction::Done(TaskDisposition::UploadEnded(outcome)),
                logs: Vec::new(),
            }
        }
    }

    /// The marker was cleared (or clearing failed, which is logged and
    /// otherwise ignored — best effort). The task finishes with the upload
    /// outcome held since the upload ended.
    pub fn on_marker_cleared(&mut self, removed: bool) -> (s: TaskStep)
        requires
            old(self).wf(),
            old(self).phase is ClearingMarker,
        ensures
            final(self).wf(),
            final(self).task == old(self).task,
            final(self).config == old(self).config,
            final(self).phase is Finished,
            !final(self).marker_present,
            (s.action matches TaskAction::Done(d) && old(self).pending_outcome matches Some(o) && d
                == TaskDisposition::UploadEnded(o)),
            removed ==> s.logs@ == Seq::<LogEvent>::empty(),
            !removed ==> s.logs@ == seq![spec_event(LogKind::MarkerRemovalFailed)],
    {
        self.marker_present = false;
        self.phase = TaskPhase::Finished;
        let o = self.pending_outcome.take().unwrap();
        let mut logs: Vec<LogEvent> = Vec::new();
        if !removed {
            logs.push(event(LogKind::MarkerRemovalFailed));
            proof {
                assert(logs@ =~= seq![spec_event(LogKind::MarkerRemovalFailed)]);
            }
        }
        TaskStep { action: TaskAction::Done(TaskDisposition::UploadEnded(o)), logs }
    }
}

/// Signing gates upload: in every reachable state of a task whose
/// configuration holds a signing key, an upload invocation has been handed
/// out only if the recorded signing outcome is a clean zero exit.
pub proof fn lemma_signing_gates_upload(p: &TaskProcessor)
    requires
        p.wf(),
        p.upload_invoked@,
        p.config.wants_signing(),
    ensures
        p.signing_passed(),
{
}

/// The status marker exists only while the upload invocation is in flight
/// or being cleaned up after: it is absent before the upload spawns, and a
/// finished task never leaves it behind — whatever outcome the upload had.
pub proof fn lemma_marker_lifecycle(p: &TaskProcessor)
    requires
        p.wf(),
    ensures
        p.marker_present ==> (p.phase is Uploading || p.phase is ClearingMarker),
        p.phase is Ready || p.phase is Signing || p.phase is PlacingMarker || p.phase is Finished
            ==> !p.marker_present,
{
}

} // verus!
