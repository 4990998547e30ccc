//! A resilient point-to-point message channel over a stream transport.
//!
//! The library holds the verified core of the channel: the wire codec for
//! tagged messages, the FIFO outbound queue, the category-keyed cache of the
//! most recent inbound messages, and the step logic of the reader, writer and
//! connection-supervisor tasks.  The surrounding process wires these steps to
//! a real socket, threads and a wake signal; the core itself never touches
//! the transport.
//!
//! Beside the channel, the crate carries the plain arithmetic of the
//! viewer's 3D-box visualizer ([`boxes3d`]); the query and render pipeline
//! around it stays outside, like the rest of the graphical surface.

use vstd::prelude::*;

pub mod boxes3d;
pub mod cache;
pub mod codec;
pub mod message;
pub mod queue;
pub mod reader;
pub mod supervisor;
pub mod writer;

verus! {

/// Seconds the supervisor waits after a failed or ended connection attempt
/// before dialing again.
pub const RETRY_DELAY_SECS: u64 = 5;

} // verus!
