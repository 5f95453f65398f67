use crate::error::{ClientError, Error, Fault, Result};
use crate::ws::{ClientMessage, ClientResponse};
use vstd::prelude::*;

verus! {

/// How many answers may wait in a session's outbound queue.
pub const QUEUE_CAPACITY: usize = 32;

/// The life of one socket connection.
#[derive(Debug, Clone, Copy, PartialEq, Eq, Structural)]
pub enum Phase {
    /// The upgrade handshake is in progress.
    Connecting,
    /// Both loops run: inbound frames are read, queued messages answered.
    Open,
    /// The peer is gone or failed; queued messages are still answered.
    Closing,
    /// Both loops have ended and the connection's resources are released.
    Closed,
}

/// What happened on a connection, as its loops observe it.
#[derive(Debug)]
pub enum SessionEvent {
    /// The upgrade handshake completed.
    Upgraded,
    /// A text frame held this message.
    Received(ClientMessage),
    /// A text frame held no message of the protocol.
    Undecodable,
    /// A binary, ping or pong frame.
    OtherFrame,
    /// The peer sent a close frame.
    CloseFrame,
    /// Reading from the peer failed.
    TransportError,
    /// The peer's stream of frames ended.
    InboundEnded,
    /// The outbound loop has ended.
    OutboundFinished,
}

/// What the loops must do next.
#[derive(Debug)]
pub enum SessionAction {
    /// Create an outbound queue of this capacity, register its producer
    /// with the connection pool, and start the outbound loop.
    Register { capacity: usize },
    /// Offer this message to every session of the pool.
    Broadcast(ClientMessage),
    /// Log the frame and read on; the connection is unaffected.
    Discard,
    /// Stop reading and wait for the outbound loop to drain its queue.
    AwaitOutbound,
    /// Release the connection; the session is over.
    Release,
    /// Nothing to do.
    Nothing,
}

/// The state of one session: its phase, and whether its outbound loop is
/// still running.
#[derive(Debug, Clone, Copy, PartialEq, Eq, Structural)]
pub struct SessionState {
    pub phase: Phase,
    pub outbound_running: bool,
}

/// Whether `e` ends the inbound loop.
pub open spec fn ends_inbound(e: SessionEvent) -> bool {
    e is CloseFrame || e is TransportError || e is InboundEnded
}

/// The state after `e` happens in state `s`.
pub open spec fn next_state(s: SessionState, e: SessionEvent) -> SessionState {
    match s.phase {
        Phase::Connecting => if e is Upgraded {
            SessionState { phase: Phase::Open, outbound_running: true }
        } else if ends_inbound(e) {
            SessionState { phase: Phase::Closed, outbound_running: false }
        } else {
            s
        },
        Phase::Open => if ends_inbound(e) {
            if s.outbound_running {
                SessionState { phase: Phase::Closing, outbound_running: true }
            } else {
                SessionState { phase: Phase::Closed, outbound_running: false }
            }
        } else if e is OutboundFinished {
            SessionState { phase: Phase::Open, outbound_running: false }
        } else {
            s
        },
        Phase::Closing => if e is OutboundFinished {
            SessionState { phase: Phase::Closed, outbound_running: false }
        } else {
            s
        },
        Phase::Closed => s,
    }
}

/// The action that `e` calls for in state `s`.
pub open spec fn next_action(s: SessionState, e: SessionEvent) -> SessionAction {
    let t = next_state(s, e);
    if s.phase != Phase::Closed && t.phase == Phase::Closed {
        SessionAction::Release
    } else {
        match s.phase {
            Phase::Connecting => if e is Upgraded {
                SessionAction::Register { capacity: QUEUE_CAPACITY }
            } else {
                SessionAction::Nothing
            },
            Phase::Open => match e {
                SessionEvent::Received(m) => SessionAction::Broadcast(m),
                SessionEvent::Undecodable => SessionAction::Discard,
                _ => if t.phase == Phase::Closing {
                    SessionAction::AwaitOutbound
                } else {
                    SessionAction::Nothing
                },
            },
            _ => SessionAction::Nothing,
        }
    }
}

/// Whether a session in state `s` is well formed: a loop that has not
/// started or has ended is not running.
pub open spec fn well_formed(s: SessionState) -> bool {
    &&& s.phase == Phase::Connecting ==> !s.outbound_running
    &&& s.phase == Phase::Closing ==> s.outbound_running
    &&& s.phase == Phase::Closed ==> !s.outbound_running
}

impl SessionState {
    /// A session whose handshake has not completed.
    pub fn new() -> (r: SessionState)
        ensures
            r.phase == Phase::Connecting,
            !r.outbound_running,
            well_formed(r),
    {
        SessionState { phase: Phase::Connecting, outbound_running: false }
    }

    /// Takes one event and says what to do about it.
    /// A message read while open is broadcast, in the order of reading; a
    /// frame that holds no message never ends the session; the session is
    /// closed only once its outbound loop has ended, and then stays closed.
    pub fn handle(&mut self, event: SessionEvent) -> (r: SessionAction)
        ensures
            *final(self) == next_state(*old(self), event),
            r == next_action(*old(self), event),
            well_formed(*old(self)) ==> well_formed(*final(self)),
            old(self).phase == Phase::Open && event is Received ==> final(self).phase
                == Phase::Open && r == SessionAction::Broadcast(event->Received_0),
            event is Undecodable ==> final(self).phase == old(self).phase,
            final(self).phase == Phase::Closed && well_formed(*old(self))
                ==> !final(self).outbound_running,
            old(self).phase == Phase::Closed ==> *final(self) == *old(self),
    {
        let s = *self;
        let ends = match &event {
            SessionEvent::CloseFrame | SessionEvent::TransportError | SessionEvent::InboundEnded => true,
            _ => false,
        };
        match s.phase {
            Phase::Connecting => {
                if let SessionEvent::Upgraded = event {
                    *self = SessionState { phase: Phase::Open, outbound_running: true };
                    SessionAction::Register { capacity: QUEUE_CAPACITY }
                } else if ends {
                    *self = SessionState { phase: Phase::Closed, outbound_running: false };
                    SessionAction::Release
                } else {
                    SessionAction::Nothing
                }
            },
            Phase::Open => {
                if ends {
                    if s.outbound_running {
                        *self = SessionState { phase: Phase::Closing, outbound_running: true };
                        SessionAction::AwaitOutbound
                    } else {
                        *self = SessionState { phase: Phase::Closed, outbound_running: false };
                        SessionAction::Release
                    }
                } else {
                    match event {
                        SessionEvent::Received(m) => SessionAction::Broadcast(m),
                        SessionEvent::Undecodable => SessionAction::Discard,
                        SessionEvent::OutboundFinished => {
                            *self = SessionState { phase: Phase::Open, outbound_running: false };
                            SessionAction::Nothing
                        },
                        _ => SessionAction::Nothing,
                    }
                }
            },
            Phase::Closing => {
                if let SessionEvent::OutboundFinished = event {
                    *self = SessionState { phase: Phase::Closed, outbound_running: false };
                    SessionAction::Release
                } else {
                    SessionAction::Nothing
                }
            },
            Phase::Closed => SessionAction::Nothing,
        }
    }
}

/// What the outbound loop does with the result of dispatching one message.
#[derive(Debug)]
pub enum Outbound {
    /// Encode the answer and write it to the peer, then go on.
    Send(ClientResponse),
    /// The request failed in a way the client caused; log it and go on.
    Skip(ClientError),
    /// A transport fault; the outbound loop ends.
    Stop(Fault),
}

/// The outbound loop's decision for one dispatch result: an answer is sent,
/// a client failure is passed over, a transport fault ends the loop.
pub fn outbound_step(result: Result<ClientResponse>) -> (r: Outbound)
    ensures
        match result {
            Ok(resp) => r == Outbound::Send(resp),
            Err(Error::ClientError(e)) => r == Outbound::Skip(e),
            Err(Error::Transport(f)) => r == Outbound::Stop(f),
        },
{
    match result {
        Ok(resp) => Outbound::Send(resp),
        Err(Error::ClientError(e)) => Outbound::Skip(e),
        Err(Error::Transport(f)) => Outbound::Stop(f),
    }
}

} // verus!
