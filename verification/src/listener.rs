//! The listener's decisions: what one receive attempt on the inbound channel
//! leads to. The caller owns the socket; it hands the observed outcome here
//! and performs the step it gets back.

use crate::logevent::{event, spec_level_of, LogEvent, LogKind};
use crate::task::{ArtifactPath, Task};
use crate::RECV_BUFFER_SIZE;
use vstd::prelude::*;

verus! {

/// What one receive attempt observed. `Data(n)` is a datagram of `n` payload
/// bytes now at the front of the buffer; `NoMoreData` is the channel's way of
/// saying no datagram is pending and none is expected soon; `Failed` is any
/// other channel error.
#[derive(Clone, Copy, PartialEq, Eq, Structural, Debug)]
pub enum RecvOutcome {
    Data(usize),
    NoMoreData,
    Failed,
}

/// What the listener does next: enqueue a task built from the payload, or
/// stop accepting and let the daemon drain — exit code 0 for a clean end of
/// input, 1 for a channel failure.
pub enum ListenerStep {
    Enqueue(Task, Vec<LogEvent>),
    Shutdown(i32, LogEvent),
}

/// The events logged on receipt: the receipt itself, and a truncation
/// warning when the payload filled the whole buffer.
pub open spec fn spec_receipt_logs(truncated: bool) -> Seq<LogEvent> {
    if truncated {
        seq![
            LogEvent {
                level: spec_level_of(LogKind::TaskReceived),
                kind: LogKind::TaskReceived,
            },
            LogEvent {
                level: spec_level_of(LogKind::PossiblyTruncated),
                kind: LogKind::PossiblyTruncated,
            },
        ]
    } else {
        seq![
            LogEvent {
                level: spec_level_of(LogKind::TaskReceived),
                kind: LogKind::TaskReceived,
            },
        ]
    }
}

/// Decide what one receive attempt leads to. A payload is enqueued whole and
/// in order, even when it may have been truncated: truncation is warned
/// about, never a reason to drop a message.
pub fn listener_step(buf: &Vec<u8>, r: RecvOutcome) -> (s: ListenerStep)
    requires
        buf@.len() == RECV_BUFFER_SIZE,
        r matches RecvOutcome::Data(n) ==> n <= RECV_BUFFER_SIZE,
    ensures
        r matches RecvOutcome::Data(n) ==> (s matches ListenerStep::Enqueue(task, logs)
            && task@ == buf@.take(n as int) && task.path.possibly_truncated() == (n
            == RECV_BUFFER_SIZE) && logs@ == spec_receipt_logs(n == RECV_BUFFER_SIZE)),
        r == RecvOutcome::NoMoreData ==> (s matches ListenerStep::Shutdown(code, log) && code == 0
            && log.kind == LogKind::ShutdownStarted && log.wf()),
        r == RecvOutcome::Failed ==> (s matches ListenerStep::Shutdown(code, log) && code == 1
            && log.kind == LogKind::ReceiveFailed && log.wf()),
{
    match r {
        RecvOutcome::Data(n) => {
            let mut payload: Vec<u8> = Vec::new();
            let mut i: usize = 0;
            while i < n
                invariant
                    i <= n,
                    n <= buf@.len(),
                    payload@ == buf@.take(i as int),
                decreases n - i,
            {
                let b: u8 = buf[i];
                payload.push(b);
                i = i + 1;
                proof {
                    assert(payload@ =~= buf@.take(i as int));
                }
            }
            let truncated: bool = n == RECV_BUFFER_SIZE;
            let task = Task::new(ArtifactPath::new(payload));
            let mut logs: Vec<LogEvent> = Vec::new();
            logs.push(event(LogKind::TaskReceived));
            if truncated {
                logs.push(event(LogKind::PossiblyTruncated));
            }
            proof {
                assert(logs@ =~= spec_receipt_logs(truncated));
            }
            ListenerStep::Enqueue(task, logs)
        },
        RecvOutcome::NoMoreData => ListenerStep::Shutdown(0, event(LogKind::ShutdownStarted)),
        RecvOutcome::Failed => ListenerStep::Shutdown(1, event(LogKind::ReceiveFailed)),
    }
}

} // verus!
