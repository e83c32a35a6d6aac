//! Connection-handling dispatcher for a single-listener echo process.
//!
//! A process run selects exactly one transport — TCP, UDP, or the
//! unimplemented serial stub — from a user-supplied connection-type string,
//! and runs that listener's read-echo-log cycle until it ends. This crate
//! holds all of the decisions: transport selection, dispatch, the
//! per-connection TCP echo cycle, the per-datagram UDP log cycle, and the
//! serial stub's report. The socket I/O that surrounds those decisions lives
//! outside the library and only carries events in and actions out.

use vstd::prelude::*;

pub mod dispatch;
pub mod parser;
pub mod select;
pub mod tcp;
pub mod text;
pub mod udp;

verus! {

/// Largest number of bytes handled in one TCP read or one UDP datagram;
/// data beyond this bound in a single datagram is truncated.
pub const MAX_PACKET_SIZE: usize = 2048;

} // verus!
