//! The terminal outcome of one supervised external process.

use vstd::prelude::*;

verus! {

/// Produced once per supervised invocation; the supervisor never retries.
/// `Completed` carries the exit code, or `None` when the child was ended by a
/// signal and left no code. `SpawnFailed` carries the spawn error rendered as
/// text; it is fatal for the task, not for the daemon.
#[derive(Debug)]
pub enum ProcessOutcome {
    Completed(Option<i32>),
    TimedOut,
    SpawnFailed(String),
}

impl ProcessOutcome {
    /// The child ran to completion and reported success.
    pub open spec fn is_success(&self) -> bool {
        match self {
            ProcessOutcome::Completed(code) => *code == Some(0i32),
            _ => false,
        }
    }

    pub fn succeeded(&self) -> (r: bool)
        ensures
            r == self.is_success(),
    {
        match self {
            ProcessOutcome::Completed(Some(code)) => *code == 0,
            _ => false,
        }
    }
}

} // verus!
