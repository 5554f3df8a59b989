use buttplug::client::in_process_comm_managers;
use buttplug::client::send_message_expect_ok;
use buttplug::client::BuildFeatures;
use buttplug::client::ButtplugClient;
use buttplug::client::CommManager;
use buttplug::client_event_loop::ButtplugClientEvent;
use buttplug::client_event_loop::ButtplugClientEventLoop;
use buttplug::client_event_loop::ButtplugClientMessageFuturePair;
use buttplug::client_event_loop::ButtplugClientRequest;
use buttplug::client_event_loop::LoopAction;
use buttplug::device::ButtplugClientDevice;
use buttplug::errors::ButtplugClientError;
use buttplug::errors::ButtplugConnectorError;
use buttplug::errors::ButtplugDeviceError;
use buttplug::errors::ButtplugError;
use buttplug::errors::ButtplugHandshakeError;
use buttplug::errors::ButtplugMessageError;
use buttplug::messages::error_from_message;
use buttplug::messages::ActuatorAttributes;
use buttplug::messages::ButtplugClientDeviceMessageType;
use buttplug::messages::ButtplugCurrentSpecClientMessage;
use buttplug::messages::ButtplugCurrentSpecServerMessage;
use buttplug::messages::ClientRequest;
use buttplug::messages::DeviceMessageAttributes;
use buttplug::messages::DeviceMessageInfo;
use buttplug::messages::ErrorCode;
use buttplug::messages::ServerResponse;
use buttplug::sorter::ClientMessageSorter;
use buttplug::sorter::SortedReply;

fn no_messages() -> DeviceMessageAttributes {
    DeviceMessageAttributes {
        vibrate: None,
        rotate: None,
        linear: None,
        battery_level: false,
        rssi_level: false,
        raw_read: false,
        raw_write: false,
        raw_subscribe: false,
        stop_device: false,
    }
}

fn vibrator(index: u32, name: &str) -> DeviceMessageInfo {
    let mut device_messages = no_messages();
    device_messages.vibrate = Some(ActuatorAttributes { feature_count: 2, step_count: 20 });
    device_messages.stop_device = true;
    DeviceMessageInfo { device_index: index, device_name: name.to_owned(), device_messages }
}

fn handle(index: u32, name: &str, connected: bool) -> ButtplugClientDevice {
    let info = vibrator(index, name);
    ButtplugClientDevice {
        index,
        name: info.device_name,
        message_attributes: info.device_messages,
        connected,
    }
}

fn reply(id: u32, response: ServerResponse) -> ButtplugCurrentSpecServerMessage {
    ButtplugCurrentSpecServerMessage { id, response }
}

fn server_info() -> ServerResponse {
    ServerResponse::ServerInfo { server_name: "fake".to_owned(), spec_version: 2, max_ping_time: 0 }
}

fn closed() -> ButtplugClientError {
    ButtplugClientError::ButtplugConnectorError(ButtplugConnectorError::ConnectorChannelClosed)
}

fn emit(event: ButtplugClientEvent) -> LoopAction {
    LoopAction::Emit(event)
}

fn indices(client: &ButtplugClient) -> Vec<u32> {
    let mut found: Vec<u32> = client.devices().iter().map(|d| d.index).collect();
    found.sort();
    found
}

/// Runs the handshake of a client against a server that answers as it should.
fn connected_client() -> ButtplugClient {
    let mut client = ButtplugClient::new("test");
    let step = client.connect(Ok(()), 10);
    assert_eq!(step.result, Ok(()));
    let delivered = client.handle_server_message(reply(1, server_info()));
    assert_eq!(
        delivered,
        vec![LoopAction::Reply { waker: 10, result: Ok(reply(1, server_info())) }]
    );
    let step = client.run_handshake(Ok(reply(1, server_info())), 11);
    assert_eq!(step.result, Ok(()));
    let list = reply(2, ServerResponse::DeviceList { devices: vec![] });
    let delivered = client.handle_server_message(list.clone());
    assert_eq!(delivered, vec![LoopAction::Reply { waker: 11, result: Ok(list.clone()) }]);
    let step = client.handle_device_list(Ok(list));
    assert_eq!(step.result, Ok(()));
    assert!(step.actions.is_empty());
    client
}

#[test]
fn scenario_happy_path_handshake() {
    let mut client = ButtplugClient::new("test");
    assert!(!client.connected());
    assert_eq!(client.server_name(), None);
    let step = client.connect(Ok(()), 10);
    assert_eq!(step.result, Ok(()));
    assert_eq!(
        step.actions,
        vec![LoopAction::Send(ButtplugCurrentSpecClientMessage {
            id: 1,
            request: ClientRequest::RequestServerInfo {
                client_name: "test".to_owned(),
                spec_version: 2,
            },
        })]
    );
    assert!(!client.connected());
    assert!(client.running());
    let step = client.run_handshake(Ok(reply(1, server_info())), 11);
    assert_eq!(step.result, Ok(()));
    assert_eq!(
        step.actions,
        vec![
            emit(ButtplugClientEvent::ServerConnect),
            LoopAction::Send(ButtplugCurrentSpecClientMessage {
                id: 2,
                request: ClientRequest::RequestDeviceList,
            }),
        ]
    );
    let step =
        client.handle_device_list(Ok(reply(2, ServerResponse::DeviceList { devices: vec![] })));
    assert_eq!(step.result, Ok(()));
    assert!(step.actions.is_empty());
    assert!(client.connected());
    assert_eq!(client.server_name(), Some("fake".to_owned()));
    assert!(client.devices().is_empty());
}

#[test]
fn scenario_unexpected_handshake_reply() {
    let mut client = ButtplugClient::new("test");
    let _ = client.connect(Ok(()), 10);
    let step = client.run_handshake(Ok(reply(1, ServerResponse::Success)), 11);
    assert_eq!(
        step.result,
        Err(ButtplugClientError::ButtplugError(ButtplugError::ButtplugHandshakeError(
            ButtplugHandshakeError::UnexpectedHandshakeMessageReceived
        )))
    );
    assert!(!client.connected());
    assert!(!client.running());
    assert!(!step.actions.contains(&emit(ButtplugClientEvent::ServerConnect)));
    // the handshake request itself was still pending when the connection went down
    assert_eq!(
        step.actions,
        vec![
            LoopAction::CloseConnector,
            LoopAction::Reply { waker: 10, result: Err(closed()) },
            emit(ButtplugClientEvent::ServerDisconnect),
            LoopAction::Acknowledge(11),
        ]
    );
    assert_eq!(client.server_name(), None);
}

#[test]
fn handshake_without_reply_hands_the_failure_on() {
    let mut client = ButtplugClient::new("test");
    let _ = client.connect(Ok(()), 10);
    let step = client.run_handshake(Err(closed()), 11);
    assert_eq!(step.result, Err(closed()));
    assert!(step.actions.is_empty());
    assert!(!client.connected());
}

#[test]
fn connecting_anew_fails_what_an_unfinished_handshake_left_pending() {
    let mut client = ButtplugClient::new("test");
    let _ = client.connect(Ok(()), 10);
    let step = client.run_handshake(Err(closed()), 11);
    assert_eq!(step.result, Err(closed()));
    assert!(client.running());
    let step = client.connect(Ok(()), 12);
    assert_eq!(step.result, Ok(()));
    assert_eq!(
        step.actions,
        vec![
            LoopAction::Reply { waker: 10, result: Err(closed()) },
            LoopAction::Send(ButtplugCurrentSpecClientMessage {
                id: 1,
                request: ClientRequest::RequestServerInfo {
                    client_name: "test".to_owned(),
                    spec_version: 2,
                },
            }),
        ]
    );
    let step = client.run_handshake(Ok(reply(1, server_info())), 13);
    assert_eq!(step.result, Ok(()));
    assert!(client.connected());
}

#[test]
fn client_can_connect_again_after_a_disconnect() {
    let mut client = connected_client();
    let _ = client.handle_server_message(reply(
        0,
        ServerResponse::DeviceAdded { device: vibrator(2, "dev") },
    ));
    assert_eq!(client.disconnect(20).result, Ok(()));
    let step = client.connect(Ok(()), 21);
    assert_eq!(step.result, Ok(()));
    assert_eq!(step.actions.len(), 1);
    assert!(client.devices().is_empty());
    assert!(!client.connected());
    // identifiers start anew on the new connection
    match &step.actions[0] {
        LoopAction::Send(msg) => assert_eq!(msg.id, 1),
        other => panic!("unexpected action {:?}", other),
    }
}

#[test]
fn failed_connector_hands_its_error_on_and_starts_nothing() {
    let refused = ButtplugConnectorError::ConnectorGenericError("refused".to_owned());
    let mut client = ButtplugClient::new("test");
    let step = client.connect(Err(refused.clone()), 10);
    assert_eq!(step.result, Err(ButtplugClientError::ButtplugConnectorError(refused.clone())));
    assert!(step.actions.is_empty());
    assert!(!client.connected());
    assert!(!client.running());
    assert_eq!(client.server_name(), None);
    assert!(client.devices().is_empty());
    // the same holds while a handshake is unfinished: what is pending stays pending
    let _ = client.connect(Ok(()), 11);
    let step = client.connect(Err(refused.clone()), 12);
    assert_eq!(step.result, Err(ButtplugClientError::ButtplugConnectorError(refused.clone())));
    assert!(step.actions.is_empty());
    assert!(client.running());
    let delivered = client.handle_server_message(reply(1, server_info()));
    assert_eq!(
        delivered,
        vec![LoopAction::Reply { waker: 11, result: Ok(reply(1, server_info())) }]
    );
    // a connected client refuses before it looks at the connector
    let mut client = connected_client();
    let step = client.connect(Err(refused), 13);
    assert_eq!(
        step.result,
        Err(ButtplugClientError::ButtplugConnectorError(
            ButtplugConnectorError::ConnectorAlreadyConnected
        ))
    );
    assert!(client.connected());
    let connect = client.connect_in_process(
        BuildFeatures {
            btleplug_manager: true,
            websocket_server_manager: false,
            serial_manager: false,
            lovense_connect_service_manager: false,
            lovense_dongle_manager: false,
            xinput_manager: false,
            windows: false,
        },
        Ok(()),
        14,
    );
    assert_eq!(connect.managers, vec![CommManager::Btleplug]);
    assert_eq!(
        connect.step.result,
        Err(ButtplugClientError::ButtplugConnectorError(
            ButtplugConnectorError::ConnectorAlreadyConnected
        ))
    );
}

#[test]
fn scenario_device_lifecycle() {
    let mut client = connected_client();
    assert_eq!(indices(&client), Vec::<u32>::new());
    let added = client
        .handle_server_message(reply(0, ServerResponse::DeviceAdded { device: vibrator(1, "dev") }));
    assert_eq!(added, vec![emit(ButtplugClientEvent::DeviceAdded(handle(1, "dev", true)))]);
    assert_eq!(indices(&client), vec![1]);
    assert_eq!(client.devices(), vec![handle(1, "dev", true)]);
    let removed =
        client.handle_server_message(reply(0, ServerResponse::DeviceRemoved { device_index: 1 }));
    assert_eq!(removed, vec![emit(ButtplugClientEvent::DeviceRemoved(handle(1, "dev", false)))]);
    assert_eq!(indices(&client), Vec::<u32>::new());
}

#[test]
fn scenario_request_reply_reordering() {
    let mut event_loop = ButtplugClientEventLoop::new();
    for (caller, expected_id) in [(101u64, 1u32), (102, 2), (103, 3)] {
        let sent = event_loop.handle_client_request(ButtplugClientRequest::Message(
            ButtplugClientMessageFuturePair::new(
                ButtplugCurrentSpecClientMessage::new(ClientRequest::Ping),
                caller,
            ),
        ));
        assert_eq!(
            sent,
            vec![LoopAction::Send(ButtplugCurrentSpecClientMessage {
                id: expected_id,
                request: ClientRequest::Ping,
            })]
        );
    }
    let mut resolved: Vec<u64> = Vec::new();
    for id in [3u32, 1, 2] {
        let actions = event_loop.handle_server_message(reply(id, ServerResponse::Success));
        assert_eq!(actions.len(), 1);
        match &actions[0] {
            LoopAction::Reply { waker, result } => {
                assert_eq!(result, &Ok(reply(id, ServerResponse::Success)));
                assert_eq!(send_message_expect_ok(result.clone()), Ok(()));
                resolved.push(*waker);
            }
            other => panic!("unexpected action {:?}", other),
        }
    }
    assert_eq!(resolved, vec![103, 101, 102]);
}

#[test]
fn transport_close_fails_every_pending_request() {
    let mut client = connected_client();
    assert_eq!(client.ping(20).result, Ok(()));
    assert_eq!(client.start_scanning(21).result, Ok(()));
    let actions = client.handle_connector_closed();
    assert_eq!(
        actions,
        vec![
            emit(ButtplugClientEvent::ServerDisconnect),
            LoopAction::Reply { waker: 20, result: Err(closed()) },
            LoopAction::Reply { waker: 21, result: Err(closed()) },
        ]
    );
    assert!(!client.connected());
    assert!(!client.running());
}

#[test]
fn disconnect_fails_every_pending_request_and_ends_with_server_disconnect() {
    let mut client = connected_client();
    let _ = client.handle_server_message(reply(
        0,
        ServerResponse::DeviceAdded { device: vibrator(4, "dev") },
    ));
    assert_eq!(client.stop_scanning(20).result, Ok(()));
    assert_eq!(client.stop_all_devices(21).result, Ok(()));
    let step = client.disconnect(22);
    assert_eq!(step.result, Ok(()));
    assert_eq!(
        step.actions,
        vec![
            LoopAction::CloseConnector,
            LoopAction::Reply { waker: 20, result: Err(closed()) },
            LoopAction::Reply { waker: 21, result: Err(closed()) },
            emit(ButtplugClientEvent::ServerDisconnect),
            LoopAction::Acknowledge(22),
        ]
    );
    assert!(!client.connected());
    assert!(client.devices().is_empty());
}

#[test]
fn disconnect_when_not_connected_is_rejected() {
    let mut client = ButtplugClient::new("test");
    let step = client.disconnect(1);
    assert_eq!(
        step.result,
        Err(ButtplugClientError::ButtplugConnectorError(
            ButtplugConnectorError::ConnectorNotConnected
        ))
    );
    assert!(step.actions.is_empty());
    assert!(!client.connected());
}

#[test]
fn second_connect_is_rejected_and_changes_nothing() {
    let mut client = connected_client();
    let _ = client.handle_server_message(reply(
        0,
        ServerResponse::DeviceAdded { device: vibrator(7, "dev") },
    ));
    let step = client.connect(Ok(()), 30);
    assert_eq!(
        step.result,
        Err(ButtplugClientError::ButtplugConnectorError(
            ButtplugConnectorError::ConnectorAlreadyConnected
        ))
    );
    assert!(step.actions.is_empty());
    assert!(client.connected());
    assert_eq!(client.server_name(), Some("fake".to_owned()));
    assert_eq!(indices(&client), vec![7]);
    // the next request still gets the next identifier of the same connection
    let step = client.ping(31);
    assert_eq!(
        step.actions,
        vec![LoopAction::Send(ButtplugCurrentSpecClientMessage {
            id: 3,
            request: ClientRequest::Ping,
        })]
    );
}

#[test]
fn commands_are_rejected_when_not_connected() {
    let mut client = ButtplugClient::new("test");
    let not_connected = Err(ButtplugClientError::ButtplugConnectorError(
        ButtplugConnectorError::ConnectorNotConnected,
    ));
    assert_eq!(client.ping(1).result, not_connected);
    assert_eq!(client.start_scanning(1).result, not_connected);
    assert_eq!(client.stop_scanning(1).result, not_connected);
    assert_eq!(client.stop_all_devices(1).result, not_connected);
    assert_eq!(client.send_message(ClientRequest::RequestDeviceList, 1).result, not_connected);
    assert!(client.ping(1).actions.is_empty());
}

#[test]
fn server_connect_is_the_first_event_of_the_handshake() {
    let mut client = ButtplugClient::new("test");
    let connect = client.connect(Ok(()), 10);
    assert!(connect.actions.iter().all(|a| !matches!(a, LoopAction::Emit(_))));
    let step = client.run_handshake(Ok(reply(1, server_info())), 11);
    assert_eq!(step.actions[0], emit(ButtplugClientEvent::ServerConnect));
    let list = ServerResponse::DeviceList { devices: vec![vibrator(1, "a"), vibrator(2, "b")] };
    let step = client.handle_device_list(Ok(reply(2, list)));
    assert_eq!(
        step.actions,
        vec![
            emit(ButtplugClientEvent::DeviceAdded(handle(1, "a", true))),
            emit(ButtplugClientEvent::DeviceAdded(handle(2, "b", true))),
        ]
    );
    assert_eq!(indices(&client), vec![1, 2]);
}

#[test]
fn registry_follows_added_and_removed_devices() {
    let mut client = connected_client();
    let added = [5u32, 3, 9, 3];
    for index in added {
        let _ = client.handle_server_message(reply(
            0,
            ServerResponse::DeviceAdded { device: vibrator(index, "dev") },
        ));
    }
    assert_eq!(indices(&client), vec![3, 5, 9]);
    let _ =
        client.handle_server_message(reply(0, ServerResponse::DeviceRemoved { device_index: 5 }));
    assert_eq!(indices(&client), vec![3, 9]);
    // removing a device that is not there changes nothing and tells nobody
    let actions =
        client.handle_server_message(reply(0, ServerResponse::DeviceRemoved { device_index: 5 }));
    assert!(actions.is_empty());
    assert_eq!(indices(&client), vec![3, 9]);
    let _ = client.handle_server_message(reply(
        0,
        ServerResponse::DeviceAdded { device: vibrator(5, "again") },
    ));
    assert_eq!(indices(&client), vec![3, 5, 9]);
    let names: Vec<String> =
        client.devices().into_iter().filter(|d| d.index == 5).map(|d| d.name).collect();
    assert_eq!(names, vec!["again".to_owned()]);
}

#[test]
fn unsolicited_messages_become_events() {
    let mut client = connected_client();
    assert_eq!(
        client.handle_server_message(reply(0, ServerResponse::ScanningFinished)),
        vec![emit(ButtplugClientEvent::ScanningFinished)]
    );
    let error = ServerResponse::Error { code: ErrorCode::ErrorPing, message: "late".to_owned() };
    assert_eq!(
        client.handle_server_message(reply(0, error)),
        vec![emit(ButtplugClientEvent::Error(ButtplugError::ButtplugPingError("late".to_owned())))]
    );
    assert_eq!(
        client.handle_server_message(reply(0, ServerResponse::Success)),
        vec![emit(ButtplugClientEvent::Error(ButtplugError::ButtplugMessageError(
            ButtplugMessageError::UnexpectedMessageType
        )))]
    );
}

#[test]
fn reply_without_request_becomes_an_error_event() {
    let mut client = connected_client();
    assert_eq!(
        client.handle_server_message(reply(77, ServerResponse::Success)),
        vec![emit(ButtplugClientEvent::Error(ButtplugError::ButtplugMessageError(
            ButtplugMessageError::UnmatchedReply(77)
        )))]
    );
}

#[test]
fn expect_ok_maps_each_reply() {
    assert_eq!(send_message_expect_ok(Ok(reply(1, ServerResponse::Success))), Ok(()));
    assert_eq!(
        send_message_expect_ok(Ok(reply(
            1,
            ServerResponse::Error { code: ErrorCode::ErrorDevice, message: "stuck".to_owned() }
        ))),
        Err(ButtplugClientError::ButtplugError(ButtplugError::ButtplugDeviceError(
            ButtplugDeviceError::DeviceSpecificError("stuck".to_owned())
        )))
    );
    assert_eq!(
        send_message_expect_ok(Ok(reply(1, ServerResponse::ScanningFinished))),
        Err(ButtplugClientError::ButtplugError(ButtplugError::ButtplugMessageError(
            ButtplugMessageError::UnexpectedMessageType
        )))
    );
    assert_eq!(send_message_expect_ok(Err(closed())), Err(closed()));
}

#[test]
fn error_codes_map_to_protocol_errors() {
    let text = || "why".to_owned();
    assert_eq!(
        error_from_message(ErrorCode::ErrorUnknown, text()),
        ButtplugError::ButtplugUnknownError(text())
    );
    assert_eq!(
        error_from_message(ErrorCode::ErrorHandshake, text()),
        ButtplugError::ButtplugHandshakeError(ButtplugHandshakeError::Reported(text()))
    );
    assert_eq!(
        error_from_message(ErrorCode::ErrorPing, text()),
        ButtplugError::ButtplugPingError(text())
    );
    assert_eq!(
        error_from_message(ErrorCode::ErrorMessage, text()),
        ButtplugError::ButtplugMessageError(ButtplugMessageError::Reported(text()))
    );
    assert_eq!(
        error_from_message(ErrorCode::ErrorDevice, text()),
        ButtplugError::ButtplugDeviceError(ButtplugDeviceError::DeviceSpecificError(text()))
    );
}

#[test]
fn sorter_pairs_replies_with_requests() {
    let mut sorter = ClientMessageSorter::new();
    let first = sorter.register(ButtplugCurrentSpecClientMessage::new(ClientRequest::Ping), 50);
    let second =
        sorter.register(ButtplugCurrentSpecClientMessage::new(ClientRequest::StartScanning), 51);
    assert_eq!(first.map(|m| m.id), Some(1));
    assert_eq!(
        second,
        Some(ButtplugCurrentSpecClientMessage { id: 2, request: ClientRequest::StartScanning })
    );
    assert_eq!(sorter.pending_count(), 2);
    assert_eq!(
        sorter.resolve(reply(2, ServerResponse::Success)),
        SortedReply::Resolved { waker: 51, reply: reply(2, ServerResponse::Success) }
    );
    // a second reply with the same identifier finds nothing
    assert_eq!(
        sorter.resolve(reply(2, ServerResponse::Success)),
        SortedReply::Unmatched(reply(2, ServerResponse::Success))
    );
    assert_eq!(sorter.pending_count(), 1);
    assert_eq!(sorter.fail_all(), vec![50]);
    assert_eq!(sorter.pending_count(), 0);
    assert_eq!(
        sorter.resolve(reply(1, ServerResponse::Success)),
        SortedReply::Unmatched(reply(1, ServerResponse::Success))
    );
    // identifiers go on where they were
    let third = sorter.register(ButtplugCurrentSpecClientMessage::new(ClientRequest::Ping), 52);
    assert_eq!(third.map(|m| m.id), Some(3));
}

#[test]
fn device_commands_respect_state_and_capabilities() {
    let device = ButtplugClientDevice::new(vibrator(3, "dev"));
    assert_eq!(device, handle(3, "dev", true));
    assert_eq!(
        device.command(ButtplugClientDeviceMessageType::VibrateCmd),
        Ok(ButtplugCurrentSpecClientMessage {
            id: 0,
            request: ClientRequest::DeviceCmd {
                device_index: 3,
                message_type: ButtplugClientDeviceMessageType::VibrateCmd,
            },
        })
    );
    assert_eq!(
        device.command(ButtplugClientDeviceMessageType::RotateCmd),
        Err(ButtplugClientError::ButtplugError(ButtplugError::ButtplugDeviceError(
            ButtplugDeviceError::MessageNotSupported
        )))
    );
    assert!(device.message_attributes.supports(ButtplugClientDeviceMessageType::StopDeviceCmd));
    assert!(!device.message_attributes.supports(ButtplugClientDeviceMessageType::RawReadCmd));
    let removed = device.clone().invalidate();
    assert_eq!(removed, handle(3, "dev", false));
    assert_eq!(
        removed.command(ButtplugClientDeviceMessageType::VibrateCmd),
        Err(ButtplugClientError::ButtplugError(ButtplugError::ButtplugDeviceError(
            ButtplugDeviceError::DeviceNotConnected
        )))
    );
}

#[test]
fn in_process_server_gets_the_managers_of_the_build() {
    let all = BuildFeatures {
        btleplug_manager: true,
        websocket_server_manager: true,
        serial_manager: true,
        lovense_connect_service_manager: true,
        lovense_dongle_manager: true,
        xinput_manager: true,
        windows: false,
    };
    assert_eq!(
        in_process_comm_managers(all),
        vec![
            CommManager::Btleplug,
            CommManager::WebsocketServer,
            CommManager::SerialPort,
            CommManager::LovenseConnectService,
            CommManager::LovenseHidDongle,
            CommManager::LovenseSerialDongle,
        ]
    );
    let windows = BuildFeatures { windows: true, btleplug_manager: false, ..all };
    let managers = in_process_comm_managers(windows);
    assert_eq!(managers.first(), Some(&CommManager::WebsocketServer));
    assert_eq!(managers.last(), Some(&CommManager::XInput));
    let mut client = ButtplugClient::new("test");
    let connect = client.connect_in_process(windows, Ok(()), 1);
    assert_eq!(connect.managers, managers);
    assert_eq!(connect.step.result, Ok(()));
    assert_eq!(connect.step.actions.len(), 1);
}
