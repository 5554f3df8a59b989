//! The symbolic names under which a protocol addresses the characteristics
//! of a device.

use vstd::prelude::*;

verus! {

/// The symbolic name of a device endpoint.
#[derive(Clone, Copy, Debug, PartialEq, Eq, Hash, Structural)]
pub enum Endpoint {
    Command,
    Firmware,
    Rx,
    RxAccel,
    RxBLEBattery,
    RxPressure,
    RxTouch,
    Tx,
    TxMode,
    TxShock,
    TxVibrate,
    TxVendorControl,
    Whitelist,
}

} // verus!
