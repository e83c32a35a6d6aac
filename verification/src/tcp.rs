//! TCP Echo Listener logic: the per-connection read-echo-log cycle and the
//! accept-loop policy.
//!
//! The surrounding socket I/O is not here; callers observe one event (a read
//! outcome, an accept outcome) and this module decides, exactly, what happens
//! next. Each connection's state is isolated: a step depends on nothing but
//! the one event it is given.

use vstd::prelude::*;
use vstd::utf8::valid_utf8;

use crate::text::check_utf8;
use crate::MAX_PACKET_SIZE;

verus! {

/// Outcome of one read on an accepted connection, as observed by its handler.
pub enum TcpEvent {
    /// The read returned zero bytes: the peer closed its write side.
    Disconnected,
    /// The read returned these bytes.
    Received(Vec<u8>),
    /// The read failed with an I/O error.
    ReadFailed,
}

/// What the handler does in response to one read outcome.
pub enum TcpAction {
    /// Log the disconnect and close the connection: a clean end, not an error.
    LogDisconnect,
    /// Log the bytes as text and write exactly these bytes back to the peer.
    Echo(Vec<u8>),
    /// The bytes do not decode as text: report it and close this connection
    /// only; no other connection is affected and nothing is echoed.
    ReportDecodeError,
    /// Log the I/O failure and shut down both directions of the connection.
    ShutdownBoth,
}

/// True when the handler keeps reading after this action; only an echo does.
pub open spec fn spec_handler_continues(action: TcpAction) -> bool {
    action is Echo
}

/// True when this action ends the handler cleanly (peer disconnect), as
/// opposed to ending it on an error.
pub open spec fn spec_clean_exit(action: TcpAction) -> bool {
    action is LogDisconnect
}

/// One turn of the read-echo-log cycle: maps the outcome of a read to the
/// handler's next action. Decodable data is echoed back byte for byte, with
/// no framing and no trimming; a half-close ends the handler cleanly; a read
/// error shuts the connection down.
pub fn tcp_connection_step(event: TcpEvent) -> (action: TcpAction)
    requires
        event matches TcpEvent::Received(d) ==> d@.len() <= MAX_PACKET_SIZE,
    ensures
        event is Disconnected ==> action is LogDisconnect,
        event is Disconnected ==> spec_clean_exit(action) && !spec_handler_continues(action),
        event matches TcpEvent::Received(d) ==> (valid_utf8(d@) ==> (action
            matches TcpAction::Echo(e) && e@ == d@)),
        event matches TcpEvent::Received(d) ==> (!valid_utf8(d@) ==> action
            is ReportDecodeError),
        event is ReadFailed ==> action is ShutdownBoth,
{
    match event {
        TcpEvent::Disconnected => TcpAction::LogDisconnect,
        TcpEvent::Received(data) => {
            if check_utf8(data.as_slice()) {
                TcpAction::Echo(data)
            } else {
                TcpAction::ReportDecodeError
            }
        },
        TcpEvent::ReadFailed => TcpAction::ShutdownBoth,
    }
}

/// True when the handler keeps reading after this action.
pub fn handler_continues(action: &TcpAction) -> (c: bool)
    ensures
        c == spec_handler_continues(*action),
{
    match action {
        TcpAction::Echo(_) => true,
        _ => false,
    }
}

/// Outcome of one turn of the accept loop, as observed by the listener.
pub enum ListenEvent {
    /// The listen socket could not be bound at startup.
    BindFailed,
    /// A connection was accepted.
    Accepted,
    /// An accept attempt failed.
    AcceptFailed,
}

/// What the listener does in response to one accept-loop outcome.
pub enum ListenAction {
    /// Fatal: report the bind failure and end the process; startup resource
    /// acquisition is never retried.
    FatalExit,
    /// Hand the new connection to a freshly spawned concurrent handler and
    /// keep accepting; handlers are unbounded, one per connection.
    SpawnHandler,
    /// Log the failed accept and keep accepting: best effort, non-fatal.
    LogAndContinue,
}

/// Accept-loop policy: a bind failure is fatal, an accepted connection gets
/// its own handler, and a failed accept is logged and survived.
pub fn tcp_listen_step(event: ListenEvent) -> (action: ListenAction)
    ensures
        event is BindFailed <==> action is FatalExit,
        event is Accepted <==> action is SpawnHandler,
        event is AcceptFailed <==> action is LogAndContinue,
{
    match event {
        ListenEvent::BindFailed => ListenAction::FatalExit,
        ListenEvent::Accepted => ListenAction::SpawnHandler,
        ListenEvent::AcceptFailed => ListenAction::LogAndContinue,
    }
}

/// True when the accept loop goes on after this action.
pub fn listen_continues(action: &ListenAction) -> (c: bool)
    ensures
        c == !(*action is FatalExit),
{
    match action {
        ListenAction::FatalExit => false,
        _ => true,
    }
}

/// Concatenation of a sequence of byte chunks, in order.
pub open spec fn concat_chunks(chunks: Seq<Seq<u8>>) -> Seq<u8>
    decreases chunks.len(),
{
    if chunks.len() == 0 {
        Seq::empty()
    } else {
        chunks.first() + concat_chunks(chunks.drop_first())
    }
}

/// Everything a handler writes back over a connection whose successive reads
/// return exactly `chunks`: each decodable chunk is echoed whole, in order,
/// and the cycle stops at the first chunk that does not decode as text.
pub open spec fn spec_echoed_output(chunks: Seq<Seq<u8>>) -> Seq<u8>
    decreases chunks.len(),
{
    if chunks.len() == 0 {
        Seq::empty()
    } else if valid_utf8(chunks.first()) {
        chunks.first() + spec_echoed_output(chunks.drop_first())
    } else {
        Seq::empty()
    }
}

/// One decodable chunk comes back exactly as sent: the echo is byte for
/// byte, unmodified, with no added delimiters.
pub proof fn lemma_round_trip(chunk: Seq<u8>)
    requires
        valid_utf8(chunk),
    ensures
        spec_echoed_output(seq![chunk]) == chunk,
{
    assert(seq![chunk].drop_first() =~= Seq::<Seq<u8>>::empty());
    assert(chunk + spec_echoed_output(Seq::empty()) =~= chunk);
}

/// A transmission split into successive reads loses nothing: over any run of
/// decodable chunks, the handler writes back their exact concatenation, so
/// the echoed chunks collectively reassemble the bytes that were sent.
pub proof fn lemma_echo_reassembles(chunks: Seq<Seq<u8>>)
    requires
        forall|k: int| 0 <= k < chunks.len() ==> valid_utf8(#[trigger] chunks[k]),
    ensures
        spec_echoed_output(chunks) == concat_chunks(chunks),
    decreases chunks.len(),
{
    if chunks.len() > 0 {
        assert(chunks.first() == chunks[0]);
        assert forall|k: int| 0 <= k < chunks.drop_first().len() implies valid_utf8(
            #[trigger] chunks.drop_first()[k],
        ) by {
            assert(chunks.drop_first()[k] == chunks[k + 1]);
        }
        lemma_echo_reassembles(chunks.drop_first());
    }
}

} // verus!
