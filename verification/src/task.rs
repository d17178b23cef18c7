//! Artifact paths and the tasks that carry them through the queue.

use crate::RECV_BUFFER_SIZE;
use vstd::prelude::*;

verus! {

/// An opaque byte sequence naming the artifact to process; it is not
/// guaranteed to be valid text and is immutable once received. Its length is
/// bounded by the receive buffer.
pub struct ArtifactPath {
    bytes: Vec<u8>,
}

impl View for ArtifactPath {
    type V = Seq<u8>;

    closed spec fn view(&self) -> Seq<u8> {
        self.bytes@
    }
}

impl ArtifactPath {
    /// Every path the daemon handles fits the receive buffer.
    pub open spec fn wf(&self) -> bool {
        self@.len() <= RECV_BUFFER_SIZE
    }

    /// A payload that fills the receive buffer exactly may have been cut
    /// short by the transport; it is flagged, never dropped.
    pub open spec fn possibly_truncated(&self) -> bool {
        self@.len() == RECV_BUFFER_SIZE
    }

    pub fn new(bytes: Vec<u8>) -> (p: Self)
        requires
            bytes@.len() <= RECV_BUFFER_SIZE,
        ensures
            p@ == bytes@,
            p.wf(),
    {
        ArtifactPath { bytes }
    }

    pub fn bytes(&self) -> (r: &Vec<u8>)
        ensures
            r@ == self@,
    {
        &self.bytes
    }

    pub fn len(&self) -> (n: usize)
        ensures
            n == self@.len(),
    {
        self.bytes.len()
    }

    pub fn is_possibly_truncated(&self) -> (r: bool)
        ensures
            r == self.possibly_truncated(),
    {
        self.bytes.len() == RECV_BUFFER_SIZE
    }
}

/// One unit of work: sign, then upload, one artifact. Created by the listener
/// on receipt, owned by the queue until a worker claims it, then owned by
/// that worker until it reaches a terminal outcome.
pub struct Task {
    pub path: ArtifactPath,
}

impl View for Task {
    type V = Seq<u8>;

    open spec fn view(&self) -> Seq<u8> {
        self.path@
    }
}

impl Task {
    pub fn new(path: ArtifactPath) -> (t: Self)
        ensures
            t@ == path@,
            t.path == path,
    {
        Task { path }
    }
}

} // verus!
