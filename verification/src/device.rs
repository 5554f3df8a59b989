//! The handle of one device: what the server said of it, and the commands
//! that may be sent to it.

use vstd::prelude::*;
use crate::errors::ButtplugClientError;
use crate::errors::ButtplugDeviceError;
use crate::errors::ButtplugError;
use crate::messages::ButtplugClientDeviceMessageType;
use crate::messages::ButtplugCurrentSpecClientMessage;
use crate::messages::ClientRequest;
use crate::messages::DeviceMessageAttributes;
use crate::messages::DeviceMessageInfo;

verus! {

/// A device that the server has announced. Once the device is removed its
/// handle is no longer connected, and stays so.
#[derive(Debug, PartialEq, Eq)]
pub struct ButtplugClientDevice {
    pub index: u32,
    pub name: String,
    pub message_attributes: DeviceMessageAttributes,
    pub connected: bool,
}

impl Clone for ButtplugClientDevice {
    fn clone(&self) -> (res: Self)
        ensures
            res == *self,
    {
        ButtplugClientDevice {
            index: self.index,
            name: self.name.clone(),
            message_attributes: self.message_attributes,
            connected: self.connected,
        }
    }
}

/// The handle of a device that the server has just described.
pub open spec fn handle_of(info: DeviceMessageInfo) -> ButtplugClientDevice {
    ButtplugClientDevice {
        index: info.device_index,
        name: info.device_name,
        message_attributes: info.device_messages,
        connected: true,
    }
}

/// The handle that is left of a device once it has been removed.
pub open spec fn removed_handle(device: ButtplugClientDevice) -> ButtplugClientDevice {
    ButtplugClientDevice { connected: false, ..device }
}

/// What `command` returns for a device and a kind of command.
pub open spec fn command_result(
    device: ButtplugClientDevice,
    message_type: ButtplugClientDeviceMessageType,
) -> Result<ButtplugCurrentSpecClientMessage, ButtplugClientError> {
    if !device.connected {
        Err(
            ButtplugClientError::ButtplugError(
                ButtplugError::ButtplugDeviceError(ButtplugDeviceError::DeviceNotConnected),
            ),
        )
    } else if !device.message_attributes.allows(message_type) {
        Err(
            ButtplugClientError::ButtplugError(
                ButtplugError::ButtplugDeviceError(ButtplugDeviceError::MessageNotSupported),
            ),
        )
    } else {
        Ok(
            ButtplugCurrentSpecClientMessage {
                id: 0,
                request: ClientRequest::DeviceCmd { device_index: device.index, message_type },
            },
        )
    }
}

impl ButtplugClientDevice {
    /// The handle of a device that the server has just described.
    pub fn new(info: DeviceMessageInfo) -> (res: Self)
        ensures
            res == handle_of(info),
    {
        ButtplugClientDevice {
            index: info.device_index,
            name: info.device_name,
            message_attributes: info.device_messages,
            connected: true,
        }
    }

    /// Marks the handle as removed: every later command fails.
    pub fn invalidate(self) -> (res: Self)
        ensures
            res == removed_handle(self),
    {
        ButtplugClientDevice {
            index: self.index,
            name: self.name,
            message_attributes: self.message_attributes,
            connected: false,
        }
    }

    /// The message that asks the device for a command of the given kind. It
    /// fails on a removed device, and on a kind that the device does not
    /// support.
    pub fn command(&self, message_type: ButtplugClientDeviceMessageType) -> (res: Result<
        ButtplugCurrentSpecClientMessage,
        ButtplugClientError,
    >)
        ensures
            res == command_result(*self, message_type),
    {
        if !self.connected {
            return Err(
                ButtplugClientError::ButtplugError(
                    ButtplugError::ButtplugDeviceError(ButtplugDeviceError::DeviceNotConnected),
                ),
            );
        }
        if !self.message_attributes.supports(message_type) {
            return Err(
                ButtplugClientError::ButtplugError(
                    ButtplugError::ButtplugDeviceError(ButtplugDeviceError::MessageNotSupported),
                ),
            );
        }
        Ok(
            ButtplugCurrentSpecClientMessage {
                id: 0,
                request: ClientRequest::DeviceCmd { device_index: self.index, message_type },
            },
        )
    }
}

} // verus!
