//! The decisions of the presence client: whether a handshake reply admits
//! the session, and how the listener loop answers what it reads.
use vstd::prelude::*;

use crate::message::{Message, READY};
use crate::packet::{frame_bytes, lemma_round_trip, parse_spec, Packet, OP_CLOSE, OP_PING, OP_PONG};

verus! {

/// Why a client could not start.
#[derive(Debug, Clone, Copy, PartialEq, Eq, Structural)]
pub enum StartError {
    /// The socket could not be opened.
    Connect,
    /// The reply to the handshake was not a data frame carrying the ready event.
    Handshake,
    /// Reading or writing the socket failed.
    Io,
}

/// Where a client is in its life.
#[derive(Debug, Clone, Copy, PartialEq, Eq, Structural)]
pub enum ClientState {
    Disconnected,
    Connecting,
    Handshaking,
    Ready,
    Listening,
    Closed,
}

/// What happened to a client.
#[derive(Debug, Clone, Copy, PartialEq, Eq, Structural)]
pub enum ClientEvent {
    /// Opening the socket began.
    Open,
    /// The socket is open.
    Connected,
    /// The socket could not be opened.
    ConnectFailed,
    /// The handshake reply was judged: accepted or not.
    HandshakeJudged(bool),
    /// The listener runs on a second handle.
    ListenerStarted,
    /// A read or write failed outside the listener.
    IoFailed,
    /// The listener loop ended.
    ListenerEnded,
}

/// Moves a client along `Disconnected`, `Connecting`, `Handshaking`, `Ready`,
/// `Listening`, `Closed`. An event that does not fit the state changes nothing.
pub fn advance(state: ClientState, event: ClientEvent) -> (r: Result<ClientState, StartError>)
    ensures
        state == ClientState::Disconnected && event == ClientEvent::Open ==> r == Ok::<ClientState, StartError>(ClientState::Connecting),
        state == ClientState::Connecting && event == ClientEvent::Connected ==> r == Ok::<ClientState, StartError>(ClientState::Handshaking),
        state == ClientState::Connecting && event == ClientEvent::ConnectFailed ==> r == Err::<ClientState, StartError>(StartError::Connect),
        state == ClientState::Handshaking && event == ClientEvent::HandshakeJudged(true) ==> r == Ok::<ClientState, StartError>(ClientState::Ready),
        state == ClientState::Handshaking && event == ClientEvent::HandshakeJudged(false) ==> r == Err::<ClientState, StartError>(StartError::Handshake),
        state == ClientState::Ready && event == ClientEvent::ListenerStarted ==> r == Ok::<ClientState, StartError>(ClientState::Listening),
        state == ClientState::Listening && event == ClientEvent::ListenerEnded ==> r == Ok::<ClientState, StartError>(ClientState::Closed),
        state != ClientState::Closed && event == ClientEvent::IoFailed ==> r == Err::<ClientState, StartError>(StartError::Io),
        r is Err ==> state != ClientState::Closed,
        !(state == ClientState::Disconnected && event == ClientEvent::Open)
            && !(state == ClientState::Connecting && (event == ClientEvent::Connected || event == ClientEvent::ConnectFailed))
            && !(state == ClientState::Handshaking && event is HandshakeJudged)
            && !(state == ClientState::Ready && event == ClientEvent::ListenerStarted)
            && !(state == ClientState::Listening && event == ClientEvent::ListenerEnded)
            && !(state != ClientState::Closed && event == ClientEvent::IoFailed)
            ==> r == Ok::<ClientState, StartError>(state),
{
    match (state, event) {
        (ClientState::Disconnected, ClientEvent::Open) => Ok(ClientState::Connecting),
        (ClientState::Connecting, ClientEvent::Connected) => Ok(ClientState::Handshaking),
        (ClientState::Connecting, ClientEvent::ConnectFailed) => Err(StartError::Connect),
        (ClientState::Handshaking, ClientEvent::HandshakeJudged(true)) => Ok(ClientState::Ready),
        (ClientState::Handshaking, ClientEvent::HandshakeJudged(false)) => Err(StartError::Handshake),
        (ClientState::Ready, ClientEvent::ListenerStarted) => Ok(ClientState::Listening),
        (ClientState::Listening, ClientEvent::ListenerEnded) => Ok(ClientState::Closed),
        (ClientState::Closed, _) => Ok(ClientState::Closed),
        (_, ClientEvent::IoFailed) => Err(StartError::Io),
        _ => Ok(state),
    }
}

/// What one read of the listener's handle gave.
pub enum ReadOutcome {
    /// These bytes were read.
    Received(Vec<u8>),
    /// The peer closed the stream.
    EndOfStream,
    /// The read failed.
    Failed,
}

/// What the listener loop does after a read.
pub enum ListenAction {
    /// Read again.
    Continue,
    /// Write these bytes on the reading handle, then read again.
    Reply(Vec<u8>),
    /// End the loop cleanly.
    Stop,
    /// End the loop with an error.
    Fail,
}

/// The listener's decision, over plain values.
pub enum Step {
    Continue,
    Reply(Seq<u8>),
    Stop,
    Fail,
}

impl ListenAction {
    pub open spec fn step(&self) -> Step {
        match self {
            ListenAction::Continue => Step::Continue,
            ListenAction::Reply(b) => Step::Reply(b@),
            ListenAction::Stop => Step::Stop,
            ListenAction::Fail => Step::Fail,
        }
    }
}

/// What the listener does with a non-empty buffer it read: a malformed
/// buffer is skipped, a ping is answered by a pong with the same payload,
/// a close ends the loop, anything else is only noted.
pub open spec fn step_on_bytes(b: Seq<u8>) -> Step {
    match parse_spec(b) {
        Err(_) => Step::Continue,
        Ok((op, payload)) => if op == OP_CLOSE {
            Step::Stop
        } else if op == OP_PING {
            Step::Reply(frame_bytes(OP_PONG, payload))
        } else {
            Step::Continue
        },
    }
}

/// What the listener does after a read.
pub open spec fn step_spec(o: &ReadOutcome) -> Step {
    match o {
        ReadOutcome::Failed => Step::Fail,
        ReadOutcome::EndOfStream => Step::Stop,
        ReadOutcome::Received(b) => if b@.len() == 0 {
            Step::Stop
        } else {
            step_on_bytes(b@)
        },
    }
}

/// Whether a handshake reply admits the session: a data frame whose
/// message carries the ready event.
pub open spec fn handshake_accepted(response: &Packet, reply: &Option<Message>) -> bool {
    &&& response is FRAME
    &&& reply matches Some(m) && m.evt matches Some(e) && e@ == READY@
}

/// Decides on the reply to the handshake. `reply` is the message that the
/// response's payload holds, if it holds one.
pub fn check_handshake(response: &Packet, reply: &Option<Message>) -> (r: Result<(), StartError>)
    ensures
        r is Ok <==> handshake_accepted(response, reply),
        r is Err ==> r == Err::<(), StartError>(StartError::Handshake),
{
    match response {
        Packet::FRAME(_) => match reply {
            Some(m) => if m.evt_matches(READY) {
                Ok(())
            } else {
                Err(StartError::Handshake)
            },
            None => Err(StartError::Handshake),
        },
        _ => Err(StartError::Handshake),
    }
}

/// Decides what the listener loop does after one read.
pub fn listen_step(outcome: &ReadOutcome) -> (a: ListenAction)
    ensures
        a.step() == step_spec(outcome),
{
    match outcome {
        ReadOutcome::Failed => ListenAction::Fail,
        ReadOutcome::EndOfStream => ListenAction::Stop,
        ReadOutcome::Received(b) => {
            if b.len() == 0 {
                return ListenAction::Stop;
            }
            match Packet::decode(b.as_slice()) {
                Err(_) => ListenAction::Continue,
                Ok(Packet::CLOSE) => ListenAction::Stop,
                Ok(Packet::PING(p)) => {
                    proof {
                        lemma_round_trip(OP_PING, p@);
                    }
                    ListenAction::Reply(Packet::PONG(p).as_bytes())
                },
                Ok(_) => ListenAction::Continue,
            }
        },
    }
}

/// A ping read by the listener is answered by exactly one frame: a pong
/// that echoes the ping's payload.
pub proof fn lemma_ping_answered_by_pong(payload: Seq<u8>)
    requires
        payload.len() <= u32::MAX,
    ensures
        step_on_bytes(frame_bytes(OP_PING, payload)) == Step::Reply(frame_bytes(OP_PONG, payload)),
{
    lemma_round_trip(OP_PING, payload);
}

/// A close frame read by the listener ends the loop, and nothing is written.
pub proof fn lemma_close_stops(payload: Seq<u8>)
    requires
        payload.len() <= u32::MAX,
    ensures
        step_on_bytes(frame_bytes(OP_CLOSE, payload)) == Step::Stop,
{
    lemma_round_trip(OP_CLOSE, payload);
}

} // verus!
