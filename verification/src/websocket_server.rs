//! The websocket server transport: its configuration, and the decisions of
//! its connection loop.
//!
//! The loop owns the socket. Each turn it is told what has happened (the
//! disconnect notifier fired, the keepalive timer ran out, an outgoing
//! message is there, a frame came in, or the last thing it asked for failed)
//! and it says what to do with the socket and the channels.

use vstd::prelude::*;
use crate::errors::ButtplugConnectorError;
use crate::errors::ButtplugConnectorTransportSpecificError;

verus! {

/// The port that the transport listens on when none is set.
pub const DEFAULT_PORT: u16 = 12345;

/// A message in serialised form, ready for a frame of the same kind.
#[derive(Clone, Debug, PartialEq, Eq)]
pub enum ButtplugSerializedMessage {
    Text(String),
    Binary(Vec<u8>),
}

/// What a transport hands to the connector that owns it.
#[derive(Clone, Debug, PartialEq, Eq)]
pub enum ButtplugTransportIncomingMessage {
    /// A message of the peer.
    Message(ButtplugSerializedMessage),
    /// The connection has closed, with the reason.
    Close(String),
}

/// How the attempt to get a peer went.
#[derive(Clone, Debug, PartialEq, Eq)]
pub enum ListenOutcome {
    /// The address could not be bound.
    BindFailed(String),
    /// No connection could be accepted.
    AcceptFailed,
    /// The connection could not be upgraded to a websocket.
    UpgradeFailed(String),
    /// A peer is connected.
    Accepted,
}

/// A frame as it comes off the socket.
#[derive(Clone, Debug, PartialEq, Eq)]
pub enum WebsocketFrame {
    Text(String),
    Binary(Vec<u8>),
    Ping,
    Pong,
    Close,
}

/// What has happened since the last turn of the connection loop.
#[derive(Clone, Debug, PartialEq, Eq)]
pub enum ConnectionEvent {
    /// The owner of the transport asked for a disconnect.
    DisconnectRequested,
    /// A second has passed since the timer was started.
    KeepaliveTick,
    /// The owner handed over a message to send.
    Outgoing(ButtplugSerializedMessage),
    /// The owner of the transport is gone.
    OutgoingClosed,
    /// A frame came in.
    Incoming(WebsocketFrame),
    /// The socket reported an error.
    IncomingError,
    /// The socket has no more frames.
    IncomingClosed,
    /// What the loop last asked for could not be done.
    ActionFailed,
}

/// What the connection loop asks for, in the order given.
#[derive(Clone, Debug, PartialEq, Eq)]
pub enum ConnectionAction {
    /// Close the socket.
    CloseSocket,
    /// Send a ping frame.
    SendPing,
    /// Send a text frame.
    SendText(String),
    /// Send a binary frame.
    SendBinary(Vec<u8>),
    /// Start the keepalive timer again, for one second.
    RestartTimer,
    /// Hand a text message to the connector.
    ForwardText(String),
    /// Tell the connector that the connection has closed.
    ForwardClose,
}

/// The state of a connection loop with what a turn asks for.
pub struct ConnectionOutcome {
    pub pong_count: u32,
    pub running: bool,
    pub actions: Seq<ConnectionAction>,
}

/// One more pong. The count stops at the largest number: the loop only ever
/// asks whether it is zero.
pub open spec fn one_more(pong_count: u32) -> u32 {
    if pong_count < u32::MAX {
        (pong_count + 1) as u32
    } else {
        pong_count
    }
}

/// A turn of a running connection loop.
pub open spec fn connection_step(pong_count: u32, event: ConnectionEvent) -> ConnectionOutcome {
    match event {
        ConnectionEvent::DisconnectRequested => ConnectionOutcome {
            pong_count,
            running: false,
            actions: seq![ConnectionAction::CloseSocket],
        },
        ConnectionEvent::KeepaliveTick => if pong_count == 0 {
            ConnectionOutcome { pong_count, running: false, actions: Seq::empty() }
        } else {
            ConnectionOutcome {
                pong_count: 0,
                running: true,
                actions: seq![ConnectionAction::SendPing, ConnectionAction::RestartTimer],
            }
        },
        ConnectionEvent::Outgoing(ButtplugSerializedMessage::Text(text)) => ConnectionOutcome {
            pong_count,
            running: true,
            actions: seq![ConnectionAction::SendText(text)],
        },
        ConnectionEvent::Outgoing(ButtplugSerializedMessage::Binary(bytes)) => ConnectionOutcome {
            pong_count,
            running: true,
            actions: seq![ConnectionAction::SendBinary(bytes)],
        },
        ConnectionEvent::OutgoingClosed => ConnectionOutcome {
            pong_count,
            running: false,
            actions: seq![ConnectionAction::CloseSocket],
        },
        ConnectionEvent::Incoming(WebsocketFrame::Text(text)) => ConnectionOutcome {
            pong_count,
            running: true,
            actions: seq![ConnectionAction::ForwardText(text)],
        },
        ConnectionEvent::Incoming(WebsocketFrame::Binary(_)) => ConnectionOutcome {
            pong_count,
            running: true,
            actions: Seq::empty(),
        },
        ConnectionEvent::Incoming(WebsocketFrame::Ping) => ConnectionOutcome {
            pong_count,
            running: true,
            actions: Seq::empty(),
        },
        ConnectionEvent::Incoming(WebsocketFrame::Pong) => ConnectionOutcome {
            pong_count: one_more(pong_count),
            running: true,
            actions: Seq::empty(),
        },
        ConnectionEvent::Incoming(WebsocketFrame::Close) => ConnectionOutcome {
            pong_count,
            running: false,
            actions: seq![ConnectionAction::ForwardClose],
        },
        ConnectionEvent::IncomingError => ConnectionOutcome {
            pong_count,
            running: false,
            actions: seq![ConnectionAction::ForwardClose],
        },
        ConnectionEvent::IncomingClosed => ConnectionOutcome {
            pong_count,
            running: false,
            actions: Seq::empty(),
        },
        ConnectionEvent::ActionFailed => ConnectionOutcome {
            pong_count,
            running: false,
            actions: Seq::empty(),
        },
    }
}

/// The connection loop between two turns: the pongs counted since the last
/// keepalive tick, and whether the loop has not ended.
#[derive(Clone, Copy, Debug, PartialEq, Eq, Structural)]
pub struct ConnectionLoop {
    pub pong_count: u32,
    pub running: bool,
}

impl ConnectionLoop {
    /// A loop on a fresh connection. The count starts at one, so that the
    /// first tick sends a ping.
    pub fn new() -> (res: Self)
        ensures
            res.pong_count == 1,
            res.running,
    {
        ConnectionLoop { pong_count: 1, running: true }
    }

    /// One turn of the loop. A loop that has ended stays as it is and asks
    /// for nothing.
    pub fn step(&mut self, event: ConnectionEvent) -> (actions: Vec<ConnectionAction>)
        ensures
            !old(self).running ==> *final(self) == *old(self) && actions@ == Seq::<
                ConnectionAction,
            >::empty(),
            old(self).running ==> {
                &&& final(self).pong_count == connection_step(old(self).pong_count, event).pong_count
                &&& final(self).running == connection_step(old(self).pong_count, event).running
                &&& actions@ == connection_step(old(self).pong_count, event).actions
            },
    {
        let mut actions: Vec<ConnectionAction> = Vec::new();
        if !self.running {
            return actions;
        }
        match event {
            ConnectionEvent::DisconnectRequested => {
                actions.push(ConnectionAction::CloseSocket);
                self.running = false;
            },
            ConnectionEvent::KeepaliveTick => {
                if self.pong_count == 0 {
                    self.running = false;
                } else {
                    self.pong_count = 0;
                    actions.push(ConnectionAction::SendPing);
                    actions.push(ConnectionAction::RestartTimer);
                }
            },
            ConnectionEvent::Outgoing(ButtplugSerializedMessage::Text(text)) => {
                actions.push(ConnectionAction::SendText(text));
            },
            ConnectionEvent::Outgoing(ButtplugSerializedMessage::Binary(bytes)) => {
                actions.push(ConnectionAction::SendBinary(bytes));
            },
            ConnectionEvent::OutgoingClosed => {
                actions.push(ConnectionAction::CloseSocket);
                self.running = false;
            },
            ConnectionEvent::Incoming(WebsocketFrame::Text(text)) => {
                actions.push(ConnectionAction::ForwardText(text));
            },
            ConnectionEvent::Incoming(WebsocketFrame::Binary(_)) => {},
            ConnectionEvent::Incoming(WebsocketFrame::Ping) => {},
            ConnectionEvent::Incoming(WebsocketFrame::Pong) => {
                if self.pong_count < u32::MAX {
                    self.pong_count = self.pong_count + 1;
                }
            },
            ConnectionEvent::Incoming(WebsocketFrame::Close) => {
                actions.push(ConnectionAction::ForwardClose);
                self.running = false;
            },
            ConnectionEvent::IncomingError => {
                actions.push(ConnectionAction::ForwardClose);
                self.running = false;
            },
            ConnectionEvent::IncomingClosed => {
                self.running = false;
            },
            ConnectionEvent::ActionFailed => {
                self.running = false;
            },
        }
        assert(actions@ =~= connection_step(old(self).pong_count, event).actions);
        actions
    }
}

/// The pong count of a loop after a run of frames of the peer, none of
/// which ends the loop.
pub open spec fn count_after(pong_count: u32, frames: Seq<WebsocketFrame>) -> u32
    decreases frames.len(),
{
    if frames.len() == 0 {
        pong_count
    } else {
        connection_step(
            count_after(pong_count, frames.drop_last()),
            ConnectionEvent::Incoming(frames.last()),
        ).pong_count
    }
}

/// A peer that never pongs is dropped at the second keepalive tick at the
/// latest: whatever the pong count was, and whatever frames other than
/// pongs come in between, the tick that follows a tick ends the loop.
pub proof fn law_missing_pong(pong_count: u32, frames: Seq<WebsocketFrame>)
    requires
        forall|i: int| 0 <= i < frames.len() ==> #[trigger] frames[i] != WebsocketFrame::Pong,
    ensures
        !connection_step(
            count_after(
                connection_step(pong_count, ConnectionEvent::KeepaliveTick).pong_count,
                frames,
            ),
            ConnectionEvent::KeepaliveTick,
        ).running,
{
    let after_tick = connection_step(pong_count, ConnectionEvent::KeepaliveTick).pong_count;
    assert(after_tick == 0);
    lemma_count_stays_zero(frames);
}

/// Frames other than pongs leave a pong count of zero at zero.
pub proof fn lemma_count_stays_zero(frames: Seq<WebsocketFrame>)
    requires
        forall|i: int| 0 <= i < frames.len() ==> #[trigger] frames[i] != WebsocketFrame::Pong,
    ensures
        count_after(0, frames) == 0,
    decreases frames.len(),
{
    if frames.len() > 0 {
        let rest = frames.drop_last();
        assert forall|i: int| 0 <= i < rest.len() implies #[trigger] rest[i]
            != WebsocketFrame::Pong by {
            assert(rest[i] == frames[i]);
        }
        lemma_count_stays_zero(rest);
        assert(frames[frames.len() - 1] != WebsocketFrame::Pong);
    }
}

/// A pong keeps the connection: after a pong has come in, the next
/// keepalive tick does not end the loop, and it sends a ping.
pub proof fn law_pong_keeps_alive(pong_count: u32)
    ensures
        connection_step(
            connection_step(pong_count, ConnectionEvent::Incoming(WebsocketFrame::Pong)).pong_count,
            ConnectionEvent::KeepaliveTick,
        ).running,
        connection_step(
            connection_step(pong_count, ConnectionEvent::Incoming(WebsocketFrame::Pong)).pong_count,
            ConnectionEvent::KeepaliveTick,
        ).actions == seq![ConnectionAction::SendPing, ConnectionAction::RestartTimer],
{
}

/// Builds a websocket server transport.
#[derive(Clone, Copy, Debug, PartialEq, Eq, Structural)]
pub struct ButtplugWebsocketServerTransportBuilder {
    /// If true, listens on all available interfaces. Otherwise, only listens
    /// on the loopback address.
    pub listen_on_all_interfaces: bool,
    /// Insecure port for listening for websocket connections.
    pub port: u16,
}

impl Default for ButtplugWebsocketServerTransportBuilder {
    fn default() -> (res: Self)
        ensures
            res.listen_on_all_interfaces == false,
            res.port == DEFAULT_PORT,
    {
        ButtplugWebsocketServerTransportBuilder {
            listen_on_all_interfaces: false,
            port: DEFAULT_PORT,
        }
    }
}

impl ButtplugWebsocketServerTransportBuilder {
    pub fn listen_on_all_interfaces(&mut self, listen_on_all_interfaces: bool) -> (res: &mut Self)
        ensures
            final(self).listen_on_all_interfaces == final(res).listen_on_all_interfaces,
            final(self).port == final(res).port,
            res.listen_on_all_interfaces == listen_on_all_interfaces,
            res.port == old(self).port,
    {
        self.listen_on_all_interfaces = listen_on_all_interfaces;
        self
    }

    pub fn port(&mut self, port: u16) -> (res: &mut Self)
        ensures
            final(self).listen_on_all_interfaces == final(res).listen_on_all_interfaces,
            final(self).port == final(res).port,
            res.listen_on_all_interfaces == old(self).listen_on_all_interfaces,
            res.port == port,
    {
        self.port = port;
        self
    }

    /// The transport that the builder describes.
    pub fn finish(&self) -> (res: ButtplugWebsocketServerTransport)
        ensures
            res.port == self.port,
            res.listen_on_all_interfaces == self.listen_on_all_interfaces,
    {
        ButtplugWebsocketServerTransport {
            port: self.port,
            listen_on_all_interfaces: self.listen_on_all_interfaces,
        }
    }
}

/// Where a websocket server transport listens.
#[derive(Clone, Copy, Debug, PartialEq, Eq, Structural)]
pub struct ButtplugWebsocketServerTransport {
    pub port: u16,
    pub listen_on_all_interfaces: bool,
}

impl ButtplugWebsocketServerTransport {
    /// The address of the interface to listen on: every interface, or the
    /// loopback interface only.
    pub fn listen_host(&self) -> (res: &'static str)
        ensures
            self.listen_on_all_interfaces ==> res@ == "0.0.0.0"@,
            !self.listen_on_all_interfaces ==> res@ == "127.0.0.1"@,
    {
        if self.listen_on_all_interfaces {
            "0.0.0.0"
        } else {
            "127.0.0.1"
        }
    }

    /// What `connect` returns once the attempt to get a peer is over: the
    /// connection loop to run, or the error of the step that failed.
    pub fn connect(&self, outcome: ListenOutcome) -> (res: Result<
        ConnectionLoop,
        ButtplugConnectorError,
    >)
        ensures
            match outcome {
                ListenOutcome::Accepted => res == Ok::<ConnectionLoop, ButtplugConnectorError>(
                    (ConnectionLoop { pong_count: 1, running: true }),
                ),
                ListenOutcome::BindFailed(detail) => res == Err::<
                    ConnectionLoop,
                    ButtplugConnectorError,
                >(
                    ButtplugConnectorError::TransportSpecificError(
                        ButtplugConnectorTransportSpecificError::GenericNetworkError(detail),
                    ),
                ),
                ListenOutcome::UpgradeFailed(detail) => res == Err::<
                    ConnectionLoop,
                    ButtplugConnectorError,
                >(
                    ButtplugConnectorError::TransportSpecificError(
                        ButtplugConnectorTransportSpecificError::TungsteniteError(detail),
                    ),
                ),
                ListenOutcome::AcceptFailed => {
                    &&& res matches Err(ButtplugConnectorError::ConnectorGenericError(text))
                    &&& text@ == "Could not run accept for insecure port"@
                },
            },
    {
        match outcome {
            ListenOutcome::Accepted => Ok(ConnectionLoop::new()),
            ListenOutcome::BindFailed(detail) => Err(
                ButtplugConnectorError::TransportSpecificError(
                    ButtplugConnectorTransportSpecificError::GenericNetworkError(detail),
                ),
            ),
            ListenOutcome::UpgradeFailed(detail) => Err(
                ButtplugConnectorError::TransportSpecificError(
                    ButtplugConnectorTransportSpecificError::TungsteniteError(detail),
                ),
            ),
            ListenOutcome::AcceptFailed => Err(
                ButtplugConnectorError::ConnectorGenericError(
                    "Could not run accept for insecure port".to_owned(),
                ),
            ),
        }
    }

    /// What `disconnect` tells the connection loop.
    pub fn disconnect(self) -> (res: ConnectionEvent)
        ensures
            res == ConnectionEvent::DisconnectRequested,
    {
        ConnectionEvent::DisconnectRequested
    }
}

/// What the connector is told when the connection loop asks for
/// `ForwardClose`.
pub fn closed_notice() -> (res: ButtplugTransportIncomingMessage)
    ensures
        res matches ButtplugTransportIncomingMessage::Close(reason) && reason@
            == "Websocket server closed"@,
{
    ButtplugTransportIncomingMessage::Close("Websocket server closed".to_owned())
}

} // verus!
