//! The message vocabulary exchanged between client and server.

use vstd::prelude::*;
use crate::errors::ButtplugError;
use crate::errors::ButtplugDeviceError;
use crate::errors::ButtplugHandshakeError;
use crate::errors::ButtplugMessageError;

verus! {

/// The identifier carried by every message that the server sends unasked.
pub const SERVER_EVENT_ID: u32 = 0;

/// The protocol version that the client asks for at the handshake.
pub const DEFAULT_SPEC_VERSION: u32 = 2;

/// A kind of command that a device may support.
#[derive(Clone, Copy, Debug, PartialEq, Eq, Hash, Structural)]
pub enum ButtplugClientDeviceMessageType {
    VibrateCmd,
    RotateCmd,
    LinearCmd,
    BatteryLevelCmd,
    RSSILevelCmd,
    RawReadCmd,
    RawWriteCmd,
    RawSubscribeCmd,
    StopDeviceCmd,
}

/// What a device says about one kind of actuator command that it supports.
#[derive(Clone, Copy, Debug, PartialEq, Eq, Structural)]
pub struct ActuatorAttributes {
    /// Number of actuators that the command addresses.
    pub feature_count: u32,
    /// Number of steps that each actuator resolves.
    pub step_count: u32,
}

/// The kinds of command that a device supports, each with its attributes.
#[derive(Clone, Copy, Debug, PartialEq, Eq, Structural)]
pub struct DeviceMessageAttributes {
    pub vibrate: Option<ActuatorAttributes>,
    pub rotate: Option<ActuatorAttributes>,
    pub linear: Option<ActuatorAttributes>,
    pub battery_level: bool,
    pub rssi_level: bool,
    pub raw_read: bool,
    pub raw_write: bool,
    pub raw_subscribe: bool,
    pub stop_device: bool,
}

impl DeviceMessageAttributes {
    /// Whether the device supports commands of the given kind.
    pub open spec fn allows(self, message_type: ButtplugClientDeviceMessageType) -> bool {
        match message_type {
            ButtplugClientDeviceMessageType::VibrateCmd => self.vibrate is Some,
            ButtplugClientDeviceMessageType::RotateCmd => self.rotate is Some,
            ButtplugClientDeviceMessageType::LinearCmd => self.linear is Some,
            ButtplugClientDeviceMessageType::BatteryLevelCmd => self.battery_level,
            ButtplugClientDeviceMessageType::RSSILevelCmd => self.rssi_level,
            ButtplugClientDeviceMessageType::RawReadCmd => self.raw_read,
            ButtplugClientDeviceMessageType::RawWriteCmd => self.raw_write,
            ButtplugClientDeviceMessageType::RawSubscribeCmd => self.raw_subscribe,
            ButtplugClientDeviceMessageType::StopDeviceCmd => self.stop_device,
        }
    }

    /// Tells whether the device supports commands of the given kind.
    pub fn supports(&self, message_type: ButtplugClientDeviceMessageType) -> (res: bool)
        ensures
            res == self.allows(message_type),
    {
        match message_type {
            ButtplugClientDeviceMessageType::VibrateCmd => self.vibrate.is_some(),
            ButtplugClientDeviceMessageType::RotateCmd => self.rotate.is_some(),
            ButtplugClientDeviceMessageType::LinearCmd => self.linear.is_some(),
            ButtplugClientDeviceMessageType::BatteryLevelCmd => self.battery_level,
            ButtplugClientDeviceMessageType::RSSILevelCmd => self.rssi_level,
            ButtplugClientDeviceMessageType::RawReadCmd => self.raw_read,
            ButtplugClientDeviceMessageType::RawWriteCmd => self.raw_write,
            ButtplugClientDeviceMessageType::RawSubscribeCmd => self.raw_subscribe,
            ButtplugClientDeviceMessageType::StopDeviceCmd => self.stop_device,
        }
    }
}

/// A device as the server describes it.
#[derive(Debug, PartialEq, Eq)]
pub struct DeviceMessageInfo {
    pub device_index: u32,
    pub device_name: String,
    pub device_messages: DeviceMessageAttributes,
}

impl Clone for DeviceMessageInfo {
    fn clone(&self) -> (res: Self)
        ensures
            res == *self,
    {
        DeviceMessageInfo {
            device_index: self.device_index,
            device_name: self.device_name.clone(),
            device_messages: self.device_messages,
        }
    }
}

/// The class of an error that the server reports.
#[derive(Clone, Copy, Debug, PartialEq, Eq, Structural)]
pub enum ErrorCode {
    ErrorUnknown,
    ErrorHandshake,
    ErrorPing,
    ErrorMessage,
    ErrorDevice,
}

/// The protocol error that an `Error` message of the server stands for.
pub open spec fn error_of(code: ErrorCode, message: String) -> ButtplugError {
    match code {
        ErrorCode::ErrorUnknown => ButtplugError::ButtplugUnknownError(message),
        ErrorCode::ErrorHandshake => ButtplugError::ButtplugHandshakeError(
            ButtplugHandshakeError::Reported(message),
        ),
        ErrorCode::ErrorPing => ButtplugError::ButtplugPingError(message),
        ErrorCode::ErrorMessage => ButtplugError::ButtplugMessageError(
            ButtplugMessageError::Reported(message),
        ),
        ErrorCode::ErrorDevice => ButtplugError::ButtplugDeviceError(
            ButtplugDeviceError::DeviceSpecificError(message),
        ),
    }
}

/// Turns the code and text of an `Error` message into a protocol error.
pub fn error_from_message(code: ErrorCode, message: String) -> (res: ButtplugError)
    ensures
        res == error_of(code, message),
{
    match code {
        ErrorCode::ErrorUnknown => ButtplugError::ButtplugUnknownError(message),
        ErrorCode::ErrorHandshake => ButtplugError::ButtplugHandshakeError(
            ButtplugHandshakeError::Reported(message),
        ),
        ErrorCode::ErrorPing => ButtplugError::ButtplugPingError(message),
        ErrorCode::ErrorMessage => ButtplugError::ButtplugMessageError(
            ButtplugMessageError::Reported(message),
        ),
        ErrorCode::ErrorDevice => ButtplugError::ButtplugDeviceError(
            ButtplugDeviceError::DeviceSpecificError(message),
        ),
    }
}

/// What a client asks of the server.
#[derive(Clone, Debug, PartialEq, Eq)]
pub enum ClientRequest {
    RequestServerInfo { client_name: String, spec_version: u32 },
    Ping,
    StartScanning,
    StopScanning,
    StopAllDevices,
    RequestDeviceList,
    /// A command for one device.
    DeviceCmd { device_index: u32, message_type: ButtplugClientDeviceMessageType },
}

/// A message from client to server. The sorter sets `id` when it is sent.
#[derive(Clone, Debug, PartialEq, Eq)]
pub struct ButtplugCurrentSpecClientMessage {
    pub id: u32,
    pub request: ClientRequest,
}

/// What the server says, as a reply or unasked.
#[derive(Clone, Debug, PartialEq, Eq)]
pub enum ServerResponse {
    /// The request was carried out; the protocol calls this reply `Ok`.
    Success,
    Error { code: ErrorCode, message: String },
    ServerInfo { server_name: String, spec_version: u32, max_ping_time: u32 },
    DeviceList { devices: Vec<DeviceMessageInfo> },
    DeviceAdded { device: DeviceMessageInfo },
    DeviceRemoved { device_index: u32 },
    ScanningFinished,
}

/// A message from server to client. A reply carries the identifier of its
/// request; `id` is zero on a message that the server sends unasked.
#[derive(Clone, Debug, PartialEq, Eq)]
pub struct ButtplugCurrentSpecServerMessage {
    pub id: u32,
    pub response: ServerResponse,
}

impl ButtplugCurrentSpecClientMessage {
    /// A request that has no identifier yet.
    pub fn new(request: ClientRequest) -> (res: Self)
        ensures
            res.id == 0,
            res.request == request,
    {
        ButtplugCurrentSpecClientMessage { id: 0, request }
    }
}

} // verus!
