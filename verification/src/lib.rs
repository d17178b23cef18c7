//! A local task queue daemon, modelled for verification: artifact-path
//! notifications arrive over a datagram channel, are buffered in a bounded
//! FIFO queue, and are dispatched to a fixed pool of workers that sign and
//! upload each artifact through external commands under hard deadlines.
//!
//! Everything that decides is here and verified; the surrounding process
//! (sockets, threads, spawning children, the journal) drives these state
//! machines from outside and only performs the actions they hand back.

pub mod client;
pub mod command;
pub mod config;
pub mod listener;
pub mod logevent;
pub mod marker;
pub mod outcome;
pub mod pool;
pub mod processor;
pub mod queue;
pub mod supervisor;
pub mod task;

use vstd::prelude::*;

verus! {

/// Number of bytes in the datagram receive buffer. A payload that fills the
/// buffer exactly may have been cut short by the transport.
pub const RECV_BUFFER_SIZE: usize = 4096;

} // verus!
