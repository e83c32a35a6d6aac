//! UDP Echo Receiver logic: the per-datagram receive-log cycle.
//!
//! The receiver is strictly sequential: one datagram is fully processed
//! before the next is received. It is log-only by design — no reply is ever
//! sent back to the datagram's source, which is why no action here carries
//! bytes to write. Payloads beyond `MAX_PACKET_SIZE` are truncated by the
//! fixed-size receive buffer, an accepted limitation.

use vstd::prelude::*;

use crate::MAX_PACKET_SIZE;

verus! {

/// Outcome of one turn of the receive loop, as observed by the receiver.
pub enum UdpEvent {
    /// The socket could not be bound at startup.
    BindFailed,
    /// One datagram arrived: its payload as put on the wire, and the text of
    /// its source address.
    Datagram(Vec<u8>, String),
    /// The receive call failed.
    ReceiveFailed,
}

/// One log record attributable to one datagram: its (post-truncation) size,
/// its source address, and its payload bytes.
pub struct DatagramLog {
    pub size: usize,
    pub source: String,
    pub payload: Vec<u8>,
}

/// What the receiver does in response to one receive-loop outcome.
pub enum UdpAction {
    /// Fatal: report the bind failure and end the process.
    FatalExit,
    /// Emit this record and wait for the next datagram; nothing is sent back.
    LogDatagram(DatagramLog),
    /// Log the failed receive and retry on the next iteration, with no
    /// backoff: per-packet errors never stop the receiver.
    LogAndRetry,
}

/// The part of a datagram that survives the fixed-size receive buffer: the
/// whole payload when it is within `MAX_PACKET_SIZE` bytes, otherwise the
/// first `MAX_PACKET_SIZE` bytes with the remainder silently dropped.
pub open spec fn spec_truncated(data: Seq<u8>) -> Seq<u8> {
    if data.len() <= MAX_PACKET_SIZE {
        data
    } else {
        data.take(MAX_PACKET_SIZE as int)
    }
}

/// One turn of the receive-log cycle: maps the outcome of a receive to the
/// receiver's action. A datagram within the buffer bound is logged whole, in
/// exactly one record; an oversized one is logged truncated.
pub fn udp_receive_step(event: UdpEvent) -> (action: UdpAction)
    ensures
        event is BindFailed ==> action is FatalExit,
        event is ReceiveFailed ==> action is LogAndRetry,
        event matches UdpEvent::Datagram(data, source) ==> (action
            matches UdpAction::LogDatagram(log) && log.payload@ == spec_truncated(data@)
            && log.size == spec_truncated(data@).len() && log.source@ == source@),
{
    match event {
        UdpEvent::BindFailed => UdpAction::FatalExit,
        UdpEvent::ReceiveFailed => UdpAction::LogAndRetry,
        UdpEvent::Datagram(data, source) => {
            let mut payload = data;
            if payload.len() > MAX_PACKET_SIZE {
                payload.truncate(MAX_PACKET_SIZE);
            }
            let size = payload.len();
            UdpAction::LogDatagram(DatagramLog { size, source, payload })
        },
    }
}

/// True when the receive loop goes on after this action; only a bind failure
/// stops it.
pub fn receiver_continues(action: &UdpAction) -> (c: bool)
    ensures
        c == !(*action is FatalExit),
{
    match action {
        UdpAction::FatalExit => false,
        _ => true,
    }
}

} // verus!
