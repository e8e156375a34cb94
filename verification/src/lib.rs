//! A UDP relay engine without the socket.
//!
//! The engine couples two bounded packet queues with a small lifecycle:
//! callers enqueue packets to send and poll for packets that arrived, while a
//! loop thread drains the outbound queue into a socket and feeds what the
//! socket yields into the inbound queue. This crate holds every decision of
//! that engine and proves it against a mathematical model; the host program
//! owns the socket, the thread and the clock, and carries out what the
//! engine tells it to do.
use vstd::prelude::*;

pub mod address;
pub mod packet;
pub mod queue;
pub mod model;
pub mod engine;
pub mod trace;

verus! {

/// How long the loop thread rests, in milliseconds, after an iteration in
/// which nothing was sent and nothing arrived.
pub const LOOP_GRACE_DURATION_MS: u64 = 1;

/// How many packets may wait to be sent.
pub const MAX_PENDING_TX: usize = 128;

/// How many received packets may wait to be collected.
pub const MAX_PENDING_RX: usize = 128;

/// The longest payload, in bytes, that the engine takes from the socket.
pub const MAX_PACKET_SIZE: usize = 1460;

} // verus!
