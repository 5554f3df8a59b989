//! The two error axes of the client: connector errors and protocol errors.

use vstd::prelude::*;
use crate::endpoint::Endpoint;

verus! {

/// A failure that a transport reports in its own terms.
#[derive(Clone, Debug, PartialEq, Eq)]
pub enum ButtplugConnectorTransportSpecificError {
    /// The network refused, with the detail it gave.
    GenericNetworkError(String),
    /// The websocket layer refused, with the detail it gave.
    TungsteniteError(String),
}

/// A failure of the channel between client and server.
#[derive(Clone, Debug, PartialEq, Eq)]
pub enum ButtplugConnectorError {
    /// An operation needed a connection and there was none.
    ConnectorNotConnected,
    /// A connection was asked for while one was open.
    ConnectorAlreadyConnected,
    /// The channel to the server closed.
    ConnectorChannelClosed,
    /// A failure reported by the transport.
    TransportSpecificError(ButtplugConnectorTransportSpecificError),
    /// Any other failure.
    ConnectorGenericError(String),
}

/// A failure on the device side of a command.
#[derive(Clone, Debug, PartialEq, Eq)]
pub enum ButtplugDeviceError {
    /// The device was removed or has disconnected.
    DeviceNotConnected,
    /// The device has no characteristic for the endpoint.
    InvalidEndpoint(Endpoint),
    /// The device does not support the kind of command.
    MessageNotSupported,
    /// The device has none of the characteristics that its protocol names.
    NoEndpointsFound,
    /// The device could not be opened or explored.
    DeviceConnectionError(String),
    /// A failure reported by the device or by the server on its behalf.
    DeviceSpecificError(String),
}

/// A failure of the handshake.
#[derive(Clone, Debug, PartialEq, Eq)]
pub enum ButtplugHandshakeError {
    /// The server answered the handshake with something else than its
    /// description.
    UnexpectedHandshakeMessageReceived,
    /// The server refused the handshake, with its reason.
    Reported(String),
}

/// A failure about a message as such.
#[derive(Clone, Debug, PartialEq, Eq)]
pub enum ButtplugMessageError {
    /// The message is of a kind that has no place where it arrived.
    UnexpectedMessageType,
    /// A reply carries an identifier that no pending request has.
    UnmatchedReply(u32),
    /// Every request identifier of the connection has been used.
    IdentifiersExhausted,
    /// The server rejected a message, with its reason.
    Reported(String),
}

/// A failure inside the protocol.
#[derive(Clone, Debug, PartialEq, Eq)]
pub enum ButtplugError {
    ButtplugHandshakeError(ButtplugHandshakeError),
    ButtplugDeviceError(ButtplugDeviceError),
    ButtplugMessageError(ButtplugMessageError),
    ButtplugPingError(String),
    ButtplugUnknownError(String),
}

/// Every error that a client operation can return.
#[derive(Clone, Debug, PartialEq, Eq)]
pub enum ButtplugClientError {
    /// Connector error
    ButtplugConnectorError(ButtplugConnectorError),
    /// Protocol error
    ButtplugError(ButtplugError),
}

} // verus!
