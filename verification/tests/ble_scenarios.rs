use buttplug::btleplug_device_impl::has_characteristic;
use buttplug::btleplug_device_impl::read_reply;
use buttplug::btleplug_device_impl::BtlePlugDeviceImpl;
use buttplug::btleplug_device_impl::BtlePlugDeviceImplCreator;
use buttplug::btleplug_device_impl::ButtplugDeviceEvent;
use buttplug::btleplug_device_impl::CentralEvent;
use buttplug::btleplug_device_impl::Characteristic;
use buttplug::btleplug_device_impl::DeviceReadCmd;
use buttplug::btleplug_device_impl::DeviceSpecifier;
use buttplug::btleplug_device_impl::DeviceSubscribeCmd;
use buttplug::btleplug_device_impl::DeviceUnsubscribeCmd;
use buttplug::btleplug_device_impl::DeviceWriteCmd;
use buttplug::btleplug_device_impl::EndpointEntry;
use buttplug::btleplug_device_impl::operation_reply;
use buttplug::btleplug_device_impl::NotificationOutcome;
use buttplug::btleplug_device_impl::PeripheralReport;
use buttplug::btleplug_device_impl::PeripheralOperation;
use buttplug::btleplug_device_impl::RawReading;
use buttplug::btleplug_device_impl::WriteType;
use buttplug::errors::ButtplugDeviceError;
use buttplug::errors::ButtplugError;
use buttplug::endpoint::Endpoint;

const UUID_A: u128 = 0x6e400002_b5a3_f393_e0a9_e50e24dcca9e;
const UUID_B: u128 = 0x6e400003_b5a3_f393_e0a9_e50e24dcca9e;
const UUID_C: u128 = 0x0000fff1_0000_1000_8000_00805f9b34fb;
const ADDRESS: u64 = 0x0011_2233_4455;

fn invalid(endpoint: Endpoint) -> ButtplugError {
    ButtplugError::ButtplugDeviceError(ButtplugDeviceError::InvalidEndpoint(endpoint))
}

fn not_connected() -> ButtplugError {
    ButtplugError::ButtplugDeviceError(ButtplugDeviceError::DeviceNotConnected)
}

fn tx_rx() -> Vec<EndpointEntry> {
    vec![
        EndpointEntry { endpoint: Endpoint::Tx, uuid: UUID_A },
        EndpointEntry { endpoint: Endpoint::Rx, uuid: UUID_B },
    ]
}

fn device(protocol: &Vec<EndpointEntry>, uuids: &[u128]) -> BtlePlugDeviceImpl {
    let characteristics: Vec<Characteristic> =
        uuids.iter().map(|uuid| Characteristic { uuid: *uuid }).collect();
    BtlePlugDeviceImplCreator::new("toy", ADDRESS)
        .try_create_device_impl(protocol, PeripheralReport::Discovered(characteristics))
        .unwrap()
}

#[test]
fn scenario_ble_endpoint_map() {
    let device = device(&tx_rx(), &[UUID_A]);
    assert_eq!(device.endpoints(), vec![Endpoint::Tx]);
    assert!(device.connected());
    let write_rx =
        DeviceWriteCmd { endpoint: Endpoint::Rx, data: vec![1, 2], write_with_response: false };
    assert_eq!(device.write_value(write_rx), Err(invalid(Endpoint::Rx)));
    let write_tx =
        DeviceWriteCmd { endpoint: Endpoint::Tx, data: vec![1, 2], write_with_response: false };
    assert_eq!(
        device.write_value(write_tx),
        Ok(PeripheralOperation::Write {
            characteristic: Characteristic { uuid: UUID_A },
            data: vec![1, 2],
            write_type: WriteType::WithoutResponse,
        })
    );
}

#[test]
fn creation_fails_when_no_endpoint_is_found() {
    let creator = BtlePlugDeviceImplCreator::new("toy", ADDRESS);
    let none = ButtplugError::ButtplugDeviceError(ButtplugDeviceError::NoEndpointsFound);
    let found = |uuids: Vec<u128>| {
        PeripheralReport::Discovered(uuids.into_iter().map(|uuid| Characteristic { uuid }).collect())
    };
    assert_eq!(creator.try_create_device_impl(&tx_rx(), found(vec![UUID_C])), Err(none.clone()));
    assert_eq!(creator.try_create_device_impl(&tx_rx(), found(vec![])), Err(none.clone()));
    assert_eq!(creator.try_create_device_impl(&vec![], found(vec![UUID_A])), Err(none));
}

#[test]
fn creation_fails_when_the_peripheral_cannot_be_opened_or_explored() {
    let creator = BtlePlugDeviceImplCreator::new("toy", ADDRESS);
    assert_eq!(
        creator.try_create_device_impl(&tx_rx(), PeripheralReport::ConnectFailed("busy".to_owned())),
        Err(ButtplugError::ButtplugDeviceError(ButtplugDeviceError::DeviceConnectionError(
            "busy".to_owned()
        )))
    );
    assert_eq!(
        creator
            .try_create_device_impl(&tx_rx(), PeripheralReport::DiscoveryFailed("lost".to_owned())),
        Err(ButtplugError::ButtplugDeviceError(ButtplugDeviceError::DeviceConnectionError(
            "lost".to_owned()
        )))
    );
}

#[test]
fn peripheral_failures_become_device_errors() {
    assert_eq!(operation_reply(Ok(())), Ok(()));
    assert_eq!(
        operation_reply(Err("refused".to_owned())),
        Err(ButtplugError::ButtplugDeviceError(ButtplugDeviceError::DeviceSpecificError(
            "refused".to_owned()
        )))
    );
}

#[test]
fn adaptor_can_be_built_from_a_table() {
    let device = BtlePlugDeviceImpl::new(ADDRESS, tx_rx());
    assert!(device.connected());
    assert_eq!(device.endpoints(), vec![Endpoint::Rx, Endpoint::Tx]);
    assert_eq!(
        device.subscribe(DeviceSubscribeCmd { endpoint: Endpoint::Rx }),
        Ok(PeripheralOperation::Subscribe { characteristic: Characteristic { uuid: UUID_B } })
    );
}

#[test]
fn creator_keeps_name_and_address() {
    let creator = BtlePlugDeviceImplCreator::new("toy", ADDRESS);
    assert_eq!(creator.name, "toy");
    assert_eq!(creator.address, ADDRESS);
    assert_eq!(creator.get_specifier(), DeviceSpecifier::BluetoothLE("toy".to_owned()));
}

#[test]
fn characteristics_are_found_by_uuid() {
    let characteristics = vec![Characteristic { uuid: UUID_A }, Characteristic { uuid: UUID_B }];
    assert!(has_characteristic(&characteristics, UUID_A));
    assert!(has_characteristic(&characteristics, UUID_B));
    assert!(!has_characteristic(&characteristics, UUID_C));
    assert!(!has_characteristic(&vec![], UUID_A));
}

#[test]
fn a_later_line_of_the_definition_wins() {
    let protocol = vec![
        EndpointEntry { endpoint: Endpoint::Tx, uuid: UUID_A },
        EndpointEntry { endpoint: Endpoint::Tx, uuid: UUID_B },
        EndpointEntry { endpoint: Endpoint::Rx, uuid: UUID_C },
        EndpointEntry { endpoint: Endpoint::TxMode, uuid: UUID_C },
    ];
    let mut device = device(&protocol, &[UUID_C, UUID_B, UUID_A]);
    assert_eq!(device.endpoints(), vec![Endpoint::Rx, Endpoint::Tx, Endpoint::TxMode]);
    assert_eq!(
        device.read_value(DeviceReadCmd { endpoint: Endpoint::Tx }),
        Ok(PeripheralOperation::Read { characteristic: Characteristic { uuid: UUID_B } })
    );
    assert_eq!(
        device.handle_notification(UUID_C, vec![5]),
        NotificationOutcome::Emit(ButtplugDeviceEvent::Notification(
            ADDRESS,
            Endpoint::TxMode,
            vec![5]
        ))
    );
}

#[test]
fn every_command_rejects_an_unmapped_endpoint() {
    let mut device = device(&tx_rx(), &[UUID_B]);
    let endpoint = Endpoint::Tx;
    let write = DeviceWriteCmd { endpoint, data: vec![0], write_with_response: true };
    assert_eq!(device.write_value(write.clone()), Err(invalid(endpoint)));
    assert_eq!(device.read_value(DeviceReadCmd { endpoint }), Err(invalid(endpoint)));
    assert_eq!(device.subscribe(DeviceSubscribeCmd { endpoint }), Err(invalid(endpoint)));
    assert_eq!(device.unsubscribe(DeviceUnsubscribeCmd { endpoint }), Err(invalid(endpoint)));
    // the same holds once the device has disconnected
    let _ = device.handle_adapter_event(CentralEvent::DeviceDisconnected(ADDRESS));
    assert_eq!(device.write_value(write), Err(invalid(endpoint)));
    assert_eq!(device.read_value(DeviceReadCmd { endpoint }), Err(invalid(endpoint)));
}

#[test]
fn commands_reach_the_characteristic_of_their_endpoint() {
    let device = device(&tx_rx(), &[UUID_A, UUID_B]);
    let rx = Characteristic { uuid: UUID_B };
    assert_eq!(
        device.write_value(DeviceWriteCmd {
            endpoint: Endpoint::Rx,
            data: vec![7],
            write_with_response: true
        }),
        Ok(PeripheralOperation::Write {
            characteristic: rx,
            data: vec![7],
            write_type: WriteType::WithResponse
        })
    );
    assert_eq!(
        device.read_value(DeviceReadCmd { endpoint: Endpoint::Rx }),
        Ok(PeripheralOperation::Read { characteristic: rx })
    );
    assert_eq!(
        device.subscribe(DeviceSubscribeCmd { endpoint: Endpoint::Rx }),
        Ok(PeripheralOperation::Subscribe { characteristic: rx })
    );
    assert_eq!(
        device.unsubscribe(DeviceUnsubscribeCmd { endpoint: Endpoint::Tx }),
        Ok(PeripheralOperation::Unsubscribe { characteristic: Characteristic { uuid: UUID_A } })
    );
}

#[test]
fn notifications_are_labelled_or_dropped() {
    let mut device = device(&tx_rx(), &[UUID_A, UUID_B]);
    assert_eq!(
        device.handle_notification(UUID_B, vec![1, 2, 3]),
        NotificationOutcome::Emit(ButtplugDeviceEvent::Notification(
            ADDRESS,
            Endpoint::Rx,
            vec![1, 2, 3]
        ))
    );
    assert_eq!(
        device.handle_notification(UUID_C, vec![4]),
        NotificationOutcome::ReportUnknown(UUID_C)
    );
    assert_eq!(device.handle_notification(UUID_C, vec![4]), NotificationOutcome::Ignore);
    assert_eq!(device.handle_notification(UUID_C + 1, vec![]), NotificationOutcome::Ignore);
    assert_eq!(
        device.handle_notification(UUID_A, vec![]),
        NotificationOutcome::Emit(ButtplugDeviceEvent::Notification(ADDRESS, Endpoint::Tx, vec![]))
    );
}

#[test]
fn disconnect_of_the_peripheral_removes_the_device() {
    let mut device = device(&tx_rx(), &[UUID_A, UUID_B]);
    assert_eq!(device.handle_adapter_event(CentralEvent::Other), None);
    assert_eq!(device.handle_adapter_event(CentralEvent::DeviceDisconnected(ADDRESS + 1)), None);
    assert!(device.connected());
    assert_eq!(
        device.handle_adapter_event(CentralEvent::DeviceDisconnected(ADDRESS)),
        Some(ButtplugDeviceEvent::Removed(ADDRESS))
    );
    assert!(!device.connected());
    assert_eq!(
        device.write_value(DeviceWriteCmd {
            endpoint: Endpoint::Tx,
            data: vec![1],
            write_with_response: false
        }),
        Err(not_connected())
    );
    assert_eq!(device.read_value(DeviceReadCmd { endpoint: Endpoint::Rx }), Err(not_connected()));
    assert_eq!(
        device.subscribe(DeviceSubscribeCmd { endpoint: Endpoint::Rx }),
        Err(not_connected())
    );
    assert_eq!(
        device.unsubscribe(DeviceUnsubscribeCmd { endpoint: Endpoint::Rx }),
        Err(not_connected())
    );
    // events of the peripheral are still taken
    assert_eq!(
        device.handle_notification(UUID_A, vec![9]),
        NotificationOutcome::Emit(ButtplugDeviceEvent::Notification(
            ADDRESS,
            Endpoint::Tx,
            vec![9]
        ))
    );
}

#[test]
fn read_replies_become_readings_or_errors() {
    assert_eq!(
        read_reply(Endpoint::Rx, Ok(vec![1, 2])),
        Ok(RawReading { device_index: 0, endpoint: Endpoint::Rx, data: vec![1, 2] })
    );
    assert_eq!(
        read_reply(Endpoint::Rx, Err("gone".to_owned())),
        Err(ButtplugError::ButtplugDeviceError(ButtplugDeviceError::DeviceSpecificError(
            "gone".to_owned()
        )))
    );
}

#[test]
fn every_endpoint_can_be_mapped_and_is_listed_once() {
    let all = [
        Endpoint::Command,
        Endpoint::Firmware,
        Endpoint::Rx,
        Endpoint::RxAccel,
        Endpoint::RxBLEBattery,
        Endpoint::RxPressure,
        Endpoint::RxTouch,
        Endpoint::Tx,
        Endpoint::TxMode,
        Endpoint::TxShock,
        Endpoint::TxVibrate,
        Endpoint::TxVendorControl,
        Endpoint::Whitelist,
    ];
    let mut lines: Vec<EndpointEntry> = Vec::new();
    for (i, endpoint) in all.iter().rev().enumerate() {
        lines.push(EndpointEntry { endpoint: *endpoint, uuid: 1000 + i as u128 });
        lines.push(EndpointEntry { endpoint: *endpoint, uuid: 2000 + i as u128 });
    }
    let mut device = BtlePlugDeviceImpl::new(ADDRESS, lines);
    assert_eq!(device.endpoints(), all.to_vec());
    for (i, endpoint) in all.iter().rev().enumerate() {
        assert_eq!(
            device.read_value(DeviceReadCmd { endpoint: *endpoint }),
            Ok(PeripheralOperation::Read {
                characteristic: Characteristic { uuid: 2000 + i as u128 }
            })
        );
        assert_eq!(
            device.handle_notification(1000 + i as u128, vec![1]),
            NotificationOutcome::Emit(ButtplugDeviceEvent::Notification(
                ADDRESS,
                *endpoint,
                vec![1]
            ))
        );
    }
}
