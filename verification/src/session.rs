//! The composed client: one ambient error type and the state machine that
//! strings the layers together.
//!
//! One connection attempt runs: open the TCP socket, fetch the network
//! time, drive the TLS handshake with it, perform the WebSocket upgrade,
//! then loop decoding frames — text goes to the display sink, a ping is
//! answered with a pong, a close is answered and the transport closed. The
//! unverified shell performs each action this machine returns and feeds the
//! outcome back as the next event; any failure aborts the whole attempt,
//! and the shell decides whether to start over from scratch.

use vstd::prelude::*;

use crate::client::MessageType;
use crate::client::ReadMessage;
use crate::frame::WsError;
use crate::ntp::TimeError;
use crate::tls::TlsError;
use crate::transport::TcpError;

verus! {

/// The one ambient error of a connection attempt: every layer's failure
/// converts into it at the point of composition, is reported, and abandons
/// the attempt.
#[derive(Debug, Clone, Copy, PartialEq, Eq, Structural)]
pub enum ClientError {
    /// The socket transport failed.
    Tcp(TcpError),
    /// The TLS session failed.
    Tls(TlsError),
    /// The WebSocket layer failed.
    Ws(WsError),
    /// Fetching network time failed.
    Time(TimeError),
    /// The display sink reported a fault; opaque to this library.
    Display,
}

impl From<TcpError> for ClientError {
    fn from(err: TcpError) -> Self {
        ClientError::Tcp(err)
    }
}

impl vstd::std_specs::convert::FromSpecImpl<TcpError> for ClientError {
    open spec fn obeys_from_spec() -> bool {
        true
    }

    open spec fn from_spec(err: TcpError) -> Self {
        ClientError::Tcp(err)
    }
}

impl From<TlsError> for ClientError {
    fn from(err: TlsError) -> Self {
        ClientError::Tls(err)
    }
}

impl vstd::std_specs::convert::FromSpecImpl<TlsError> for ClientError {
    open spec fn obeys_from_spec() -> bool {
        true
    }

    open spec fn from_spec(err: TlsError) -> Self {
        ClientError::Tls(err)
    }
}

impl From<WsError> for ClientError {
    fn from(err: WsError) -> Self {
        ClientError::Ws(err)
    }
}

impl vstd::std_specs::convert::FromSpecImpl<WsError> for ClientError {
    open spec fn obeys_from_spec() -> bool {
        true
    }

    open spec fn from_spec(err: WsError) -> Self {
        ClientError::Ws(err)
    }
}

impl From<TimeError> for ClientError {
    fn from(err: TimeError) -> Self {
        ClientError::Time(err)
    }
}

impl vstd::std_specs::convert::FromSpecImpl<TimeError> for ClientError {
    open spec fn obeys_from_spec() -> bool {
        true
    }

    open spec fn from_spec(err: TimeError) -> Self {
        ClientError::Time(err)
    }
}

/// Where a connection attempt stands.
#[derive(Debug, Clone, Copy, PartialEq, Eq, Structural)]
pub enum ClientPhase {
    /// Nothing begun.
    Start,
    /// The TCP socket is being driven to established.
    TcpConnecting,
    /// The network time request is out.
    TimeSync,
    /// The TLS engine is driving its handshake.
    TlsHandshake,
    /// The Upgrade request is sent; the response is awaited.
    WsHandshake,
    /// Frames flow; the main loop runs.
    Running,
    /// The attempt ended in order (close handshake finished).
    Done,
    /// The attempt ended in an error; the whole stack is torn down.
    Failed(ClientError),
}

/// What the unverified shell reports back into the machine.
pub enum ClientEvent {
    /// The socket reached established.
    TcpEstablished,
    /// A valid network time reply arrived, with its Unix seconds.
    TimeFetched(i64),
    /// The TLS handshake completed.
    TlsEstablished,
    /// The Upgrade response carried the owed accept key.
    UpgradeAccepted,
    /// One decoded message unit.
    Message(ReadMessage),
    /// Any layer failed, already converted to the ambient error.
    Fault(ClientError),
}

/// What the unverified shell must do next.
pub enum ClientAction {
    /// Configure the chip and drive the socket to established.
    ConnectTcp,
    /// Send the time request and await a valid reply.
    FetchTime,
    /// Reset the TLS session with this clock reading and let the engine
    /// drive its handshake.
    StartTlsHandshake(i64),
    /// Send the Upgrade request over the encrypted stream and await the
    /// response.
    SendUpgradeRequest,
    /// Await the next frame.
    AwaitFrame,
    /// Hand this text payload to the display sink, then await the next
    /// frame.
    ShowText(Vec<u8>),
    /// Echo this payload back as a pong, then await the next frame.
    ReplyPong(Vec<u8>),
    /// Echo this payload back as a close reply, then close the transport:
    /// exactly one reply and one close.
    ReplyCloseThenClose(Vec<u8>),
    /// Close the transport; no reply is owed.
    CloseTcp,
    /// Report the error and tear the whole stack down.
    Abort(ClientError),
}

/// Everything one step of the composition must do: which action each event
/// demands in each phase, and the phase that follows. An event out of turn
/// changes nothing.
pub open spec fn step_spec(
    pre: ClientPhase,
    ev: ClientEvent,
    a: ClientAction,
    post: ClientPhase,
) -> bool {
    match ev {
        ClientEvent::Fault(e) => a == ClientAction::Abort(e) && post == ClientPhase::Failed(e),
        ClientEvent::TcpEstablished => {
            if pre == ClientPhase::TcpConnecting {
                a == ClientAction::FetchTime && post == ClientPhase::TimeSync
            } else {
                a == ClientAction::AwaitFrame && post == pre
            }
        },
        ClientEvent::TimeFetched(t) => {
            if pre == ClientPhase::TimeSync {
                a == ClientAction::StartTlsHandshake(t) && post == ClientPhase::TlsHandshake
            } else {
                a == ClientAction::AwaitFrame && post == pre
            }
        },
        ClientEvent::TlsEstablished => {
            if pre == ClientPhase::TlsHandshake {
                a == ClientAction::SendUpgradeRequest && post == ClientPhase::WsHandshake
            } else {
                a == ClientAction::AwaitFrame && post == pre
            }
        },
        ClientEvent::UpgradeAccepted => {
            if pre == ClientPhase::WsHandshake {
                a == ClientAction::AwaitFrame && post == ClientPhase::Running
            } else {
                a == ClientAction::AwaitFrame && post == pre
            }
        },
        ClientEvent::Message(m) => {
            if pre == ClientPhase::Running {
                match m.message_type {
                    MessageType::Text => (a matches ClientAction::ShowText(p) && p@ == m.payload@)
                        && post == ClientPhase::Running,
                    MessageType::Binary => a == ClientAction::AwaitFrame && post
                        == ClientPhase::Running,
                    MessageType::Ping => (a matches ClientAction::ReplyPong(p) && p@
                        == m.payload@) && post == ClientPhase::Running,
                    MessageType::Pong => a == ClientAction::AwaitFrame && post
                        == ClientPhase::Running,
                    MessageType::CloseMustReply => (a matches ClientAction::ReplyCloseThenClose(p)
                        && p@ == m.payload@) && post == ClientPhase::Done,
                    MessageType::CloseCompleted => a == ClientAction::CloseTcp && post
                        == ClientPhase::Done,
                }
            } else {
                a == ClientAction::AwaitFrame && post == pre
            }
        },
    }
}

/// The close handshake does exactly what the protocol owes: a close that
/// must be replied to triggers one close reply carrying the same payload
/// followed by one transport close; a completed close triggers one
/// transport close and no reply. Either way the attempt is done, so no
/// further reply or close can follow.
pub proof fn lemma_close_handshake(m: ReadMessage, a: ClientAction, post: ClientPhase)
    requires
        step_spec(ClientPhase::Running, ClientEvent::Message(m), a, post),
    ensures
        m.message_type == MessageType::CloseMustReply ==> (a
            matches ClientAction::ReplyCloseThenClose(p) && p@ == m.payload@) && post
            == ClientPhase::Done,
        m.message_type == MessageType::CloseCompleted ==> a == ClientAction::CloseTcp && post
            == ClientPhase::Done,
{
}

/// One connection attempt.
pub struct ClientSession {
    pub phase: ClientPhase,
}

impl ClientSession {
    /// A fresh attempt, nothing begun.
    pub fn new() -> (r: ClientSession)
        ensures
            r.phase == ClientPhase::Start,
    {
        ClientSession { phase: ClientPhase::Start }
    }

    /// Begins the attempt: the shell must drive the TCP socket to
    /// established.
    pub fn start(&mut self) -> (a: ClientAction)
        requires
            old(self).phase == ClientPhase::Start,
        ensures
            a == ClientAction::ConnectTcp,
            final(self).phase == ClientPhase::TcpConnecting,
    {
        self.phase = ClientPhase::TcpConnecting;
        ClientAction::ConnectTcp
    }

    /// Takes one event from the shell and decides the next action: exactly
    /// the relation `step_spec`. In particular, a received close triggers
    /// exactly one close reply carrying the same payload followed by one
    /// transport close, and a completed close triggers one transport close
    /// and no reply.
    pub fn step(&mut self, ev: ClientEvent) -> (a: ClientAction)
        ensures
            step_spec(old(self).phase, ev, a, final(self).phase),
    {
        match ev {
            ClientEvent::Fault(e) => {
                self.phase = ClientPhase::Failed(e);
                ClientAction::Abort(e)
            },
            ClientEvent::TcpEstablished => {
                if self.phase == ClientPhase::TcpConnecting {
                    self.phase = ClientPhase::TimeSync;
                    ClientAction::FetchTime
                } else {
                    ClientAction::AwaitFrame
                }
            },
            ClientEvent::TimeFetched(t) => {
                if self.phase == ClientPhase::TimeSync {
                    self.phase = ClientPhase::TlsHandshake;
                    ClientAction::StartTlsHandshake(t)
                } else {
                    ClientAction::AwaitFrame
                }
            },
            ClientEvent::TlsEstablished => {
                if self.phase == ClientPhase::TlsHandshake {
                    self.phase = ClientPhase::WsHandshake;
                    ClientAction::SendUpgradeRequest
                } else {
                    ClientAction::AwaitFrame
                }
            },
            ClientEvent::UpgradeAccepted => {
                if self.phase == ClientPhase::WsHandshake {
                    self.phase = ClientPhase::Running;
                }
                ClientAction::AwaitFrame
            },
            ClientEvent::Message(m) => {
                if self.phase == ClientPhase::Running {
                    match m.message_type {
                        MessageType::Text => ClientAction::ShowText(m.payload),
                        MessageType::Binary => ClientAction::AwaitFrame,
                        MessageType::Ping => ClientAction::ReplyPong(m.payload),
                        MessageType::Pong => ClientAction::AwaitFrame,
                        MessageType::CloseMustReply => {
                            self.phase = ClientPhase::Done;
                            ClientAction::ReplyCloseThenClose(m.payload)
                        },
                        MessageType::CloseCompleted => {
                            self.phase = ClientPhase::Done;
                            ClientAction::CloseTcp
                        },
                    }
                } else {
                    ClientAction::AwaitFrame
                }
            },
        }
    }
}

} // verus!
