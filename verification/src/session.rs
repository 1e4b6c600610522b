//! The server's handling of one connection.
//!
//! A connection starts by waiting for the client's preference. Once that is
//! read, the server writes the same zero-filled buffer over and over. The
//! first write that fails closes the connection; nothing else does, and
//! nothing reopens it. The session decides; its caller owns the stream.

use vstd::prelude::*;
use crate::handshake::{
    decode_preference, lemma_preference_round_trip, send_buffer, spec_decode, spec_encode,
    spec_zeros, HandshakeError, PREFERENCE_CAP,
};

verus! {

/// Why a connection was closed.
#[derive(Clone, Copy, Debug, PartialEq, Eq, Structural)]
pub enum CloseReason {
    /// The preference could not be read from the stream.
    PreferenceUnreadable,
    /// The preference was read but is no transfer unit size.
    BadPreference(HandshakeError),
    /// A write failed: the peer closed or reset the stream, or it broke.
    /// This is how every session that got to stream ends.
    WriteFailed,
}

/// Where a connection stands.
#[derive(Clone, Copy, Debug, PartialEq, Eq, Structural)]
pub enum SessionPhase {
    /// The client's preference has not arrived yet.
    AwaitingPreference,
    /// The buffer is being written, again and again.
    Streaming,
    /// The connection is over and its stream is to be released.
    Closed(CloseReason),
}

/// What the caller reports back to the session.
#[derive(Debug)]
pub enum ServerEvent {
    /// These bytes were read as the client's preference.
    PreferenceReceived(Vec<u8>),
    /// Reading the preference failed.
    PreferenceUnreadable,
    /// The buffer was written.
    WriteCompleted,
    /// Writing the buffer failed.
    WriteFailed,
}

/// What the session asks its caller to do next.
#[derive(Clone, Copy, Debug, PartialEq, Eq, Structural)]
pub enum ServerAction {
    /// Read at most `cap` bytes from the stream, once.
    ReadPreference {
        /// The largest number of bytes to read.
        cap: usize,
    },
    /// Write the session's buffer to the stream.
    WriteBuffer,
    /// Release the stream; the session is over.
    Release,
}

/// The session's state as plain data.
pub struct SessionState {
    /// The phase.
    pub phase: SessionPhase,
    /// The buffer that is written while streaming; empty before.
    pub buffer: Seq<u8>,
}

/// The state of a connection that was just accepted.
pub open spec fn spec_accepted() -> SessionState {
    SessionState { phase: SessionPhase::AwaitingPreference, buffer: Seq::<u8>::empty() }
}

/// The state after an event. An event that does not answer the pending
/// action changes nothing.
pub open spec fn spec_step(s: SessionState, e: ServerEvent) -> SessionState {
    match (s.phase, e) {
        (SessionPhase::AwaitingPreference, ServerEvent::PreferenceReceived(bytes)) => {
            match spec_decode(bytes@) {
                Ok(size) => SessionState {
                    phase: SessionPhase::Streaming,
                    buffer: spec_zeros(size as nat),
                },
                Err(e) => SessionState {
                    phase: SessionPhase::Closed(CloseReason::BadPreference(e)),
                    ..s
                },
            }
        },
        (SessionPhase::AwaitingPreference, ServerEvent::PreferenceUnreadable) => SessionState {
            phase: SessionPhase::Closed(CloseReason::PreferenceUnreadable),
            ..s
        },
        (SessionPhase::Streaming, ServerEvent::WriteFailed) => SessionState {
            phase: SessionPhase::Closed(CloseReason::WriteFailed),
            ..s
        },
        _ => s,
    }
}

/// The action that a state asks for.
pub open spec fn spec_action(s: SessionState) -> ServerAction {
    match s.phase {
        SessionPhase::AwaitingPreference => ServerAction::ReadPreference { cap: PREFERENCE_CAP },
        SessionPhase::Streaming => ServerAction::WriteBuffer,
        SessionPhase::Closed(_) => ServerAction::Release,
    }
}

/// The state after a sequence of events, taken in order.
pub open spec fn spec_run(s: SessionState, events: Seq<ServerEvent>) -> SessionState
    decreases events.len(),
{
    if events.len() == 0 {
        s
    } else {
        spec_step(spec_run(s, events.drop_last()), events.last())
    }
}

/// A closed connection stays closed, for the same reason and with the
/// same buffer, whatever is reported to it.
pub proof fn lemma_closed_absorbs(s: SessionState, e: ServerEvent)
    requires
        s.phase is Closed,
    ensures
        spec_step(s, e) == s,
{
}

/// The only way out of streaming is a failed write.
pub proof fn lemma_streaming_ends_on_write_failure(s: SessionState, e: ServerEvent)
    requires
        s.phase is Streaming,
    ensures
        spec_step(s, e).phase is Streaming || spec_step(s, e).phase == SessionPhase::Closed(
            CloseReason::WriteFailed,
        ),
        (spec_step(s, e).phase is Closed) <==> (e is WriteFailed),
{
}

/// The buffer of a session is settled by the handshake. From the moment a
/// session streams, every later state holds the same buffer, whatever
/// events follow.
pub proof fn lemma_buffer_is_fixed(s: SessionState, events: Seq<ServerEvent>)
    requires
        !(s.phase is AwaitingPreference),
    ensures
        spec_run(s, events).buffer == s.buffer,
        !(spec_run(s, events).phase is AwaitingPreference),
        s.phase is Closed ==> spec_run(s, events) == s,
    decreases events.len(),
{
    if events.len() > 0 {
        lemma_buffer_is_fixed(s, events.drop_last());
    }
}

/// The size that the client asks for is the size that the server writes.
/// After the client's preference for a `buffer_size` above zero, with or without NUL
/// padding, a fresh session streams a buffer of exactly `buffer_size` zero
/// bytes, and goes on to do so however many writes complete.
pub proof fn lemma_negotiated_size_is_served(
    buffer_size: usize,
    padding: nat,
    received: Vec<u8>,
    writes: Seq<ServerEvent>,
)
    requires
        buffer_size > 0,
        received@ == spec_encode(buffer_size) + spec_zeros(padding),
        received@.len() <= PREFERENCE_CAP,
        forall|i: int| 0 <= i < writes.len() ==> writes[i] is WriteCompleted,
    ensures
        ({
            let streaming = spec_step(spec_accepted(), ServerEvent::PreferenceReceived(received));
            let later = spec_run(streaming, writes);
            &&& streaming.phase is Streaming
            &&& streaming.buffer == spec_zeros(buffer_size as nat)
            &&& streaming.buffer.len() == buffer_size
            &&& later == streaming
            &&& spec_action(later) == ServerAction::WriteBuffer
        }),
    decreases writes.len(),
{
    lemma_preference_round_trip(buffer_size, padding);
    if writes.len() > 0 {
        lemma_negotiated_size_is_served(buffer_size, padding, received, writes.drop_last());
    }
}

/// A preference that is no size closes the connection before anything is
/// written, for that reason, and the stream is released.
pub proof fn lemma_bad_preference_closes(received: Vec<u8>)
    requires
        spec_decode(received@) is Err,
    ensures
        ({
            let after = spec_step(spec_accepted(), ServerEvent::PreferenceReceived(received));
            &&& after.phase == SessionPhase::Closed(
                CloseReason::BadPreference(spec_decode(received@)->Err_0),
            )
            &&& after.buffer.len() == 0
            &&& spec_action(after) == ServerAction::Release
        }),
{
}

/// The server's side of one connection.
pub struct ServerSession {
    phase: SessionPhase,
    buffer: Vec<u8>,
}

impl View for ServerSession {
    type V = SessionState;

    closed spec fn view(&self) -> SessionState {
        SessionState { phase: self.phase, buffer: self.buffer@ }
    }
}

impl ServerSession {
    /// The session of a connection that was just accepted.
    pub fn new() -> (r: ServerSession)
        ensures
            r@ == spec_accepted(),
    {
        ServerSession { phase: SessionPhase::AwaitingPreference, buffer: Vec::new() }
    }

    /// The phase of the session.
    pub fn phase(&self) -> (r: SessionPhase)
        ensures
            r == self@.phase,
    {
        self.phase
    }

    /// The buffer to write while streaming.
    pub fn buffer(&self) -> (r: &[u8])
        ensures
            r@ == self@.buffer,
    {
        self.buffer.as_slice()
    }

    /// The action that the session waits for.
    pub fn pending(&self) -> (a: ServerAction)
        ensures
            a == spec_action(self@),
    {
        match self.phase {
            SessionPhase::AwaitingPreference => ServerAction::ReadPreference {
                cap: PREFERENCE_CAP,
            },
            SessionPhase::Streaming => ServerAction::WriteBuffer,
            SessionPhase::Closed(_) => ServerAction::Release,
        }
    }

    /// Takes an event and says what to do next.
    pub fn step(&mut self, event: ServerEvent) -> (a: ServerAction)
        ensures
            final(self)@ == spec_step(old(self)@, event),
            a == spec_action(final(self)@),
    {
        match (self.phase, event) {
            (SessionPhase::AwaitingPreference, ServerEvent::PreferenceReceived(bytes)) => {
                match decode_preference(bytes.as_slice()) {
                    Ok(size) => {
                        self.buffer = send_buffer(size);
                        self.phase = SessionPhase::Streaming;
                    },
                    Err(e) => {
                        self.phase = SessionPhase::Closed(CloseReason::BadPreference(e));
                    },
                }
            },
            (SessionPhase::AwaitingPreference, ServerEvent::PreferenceUnreadable) => {
                self.phase = SessionPhase::Closed(CloseReason::PreferenceUnreadable);
            },
            (SessionPhase::Streaming, ServerEvent::WriteFailed) => {
                self.phase = SessionPhase::Closed(CloseReason::WriteFailed);
            },
            _ => {},
        }
        self.pending()
    }
}

/// Whether the listener goes on accepting after a connection was closed.
/// It always does: no way in which one connection ends stops the server.
pub fn listener_continues(reason: CloseReason) -> (r: bool)
    ensures
        r,
{
    match reason {
        CloseReason::PreferenceUnreadable => true,
        CloseReason::BadPreference(_) => true,
        CloseReason::WriteFailed => true,
    }
}

} // verus!
