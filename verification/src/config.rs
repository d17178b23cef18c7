//! Resolved daemon settings: read once at startup, immutable afterwards, and
//! passed by reference to every component that needs them.

use vstd::prelude::*;

verus! {

/// Workers started when no worker count is configured.
pub const DEFAULT_WORKER_COUNT: usize = 4;

/// Queue capacity used when none is configured.
pub const DEFAULT_QUEUE_CAPACITY: usize = 64;

/// The scalar settings the daemon runs with. `tool` is the path (or search
/// name) of the external binary that signs and copies artifacts; the two
/// options switch the signing and upload phases on or off.
pub struct DaemonConfig {
    pub worker_count: usize,
    pub queue_capacity: usize,
    pub tool: Vec<u8>,
    pub signing_key: Option<Vec<u8>>,
    pub upload_to: Option<Vec<u8>>,
}

impl DaemonConfig {
    /// Both limits are positive: a daemon with no worker or no queue slot
    /// could never make progress.
    pub open spec fn wf(&self) -> bool {
        &&& self.worker_count >= 1
        &&& self.queue_capacity >= 1
    }

    /// A signing key is configured, so every task must be signed before it
    /// may be uploaded.
    pub open spec fn wants_signing(&self) -> bool {
        self.signing_key is Some
    }

    /// An upload destination is configured.
    pub open spec fn wants_upload(&self) -> bool {
        self.upload_to is Some
    }

    /// Settings with the default worker count and queue capacity.
    pub fn new(tool: Vec<u8>, signing_key: Option<Vec<u8>>, upload_to: Option<Vec<u8>>) -> (c:
        Self)
        ensures
            c.worker_count == DEFAULT_WORKER_COUNT,
            c.queue_capacity == DEFAULT_QUEUE_CAPACITY,
            c.tool == tool,
            c.signing_key == signing_key,
            c.upload_to == upload_to,
            c.wf(),
    {
        DaemonConfig {
            worker_count: DEFAULT_WORKER_COUNT,
            queue_capacity: DEFAULT_QUEUE_CAPACITY,
            tool,
            signing_key,
            upload_to,
        }
    }

    /// Settings with explicit limits; both must be positive.
    pub fn with_limits(
        worker_count: usize,
        queue_capacity: usize,
        tool: Vec<u8>,
        signing_key: Option<Vec<u8>>,
        upload_to: Option<Vec<u8>>,
    ) -> (c: Self)
        requires
            worker_count >= 1,
            queue_capacity >= 1,
        ensures
            c.worker_count == worker_count,
            c.queue_capacity == queue_capacity,
            c.tool == tool,
            c.signing_key == signing_key,
            c.upload_to == upload_to,
            c.wf(),
    {
        DaemonConfig { worker_count, queue_capacity, tool, signing_key, upload_to }
    }
}

} // verus!
