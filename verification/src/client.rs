//! The client facade: the operations that an application calls, and the
//! handshake with the server.
//!
//! Each operation returns what is to be done, in order, and what the caller
//! of the operation is told at once. A reply of the server arrives later, in
//! the slot that was named when the request was made.

use vstd::prelude::*;
use crate::client_event_loop::device_added_events;
use crate::client_event_loop::devices_after_list;
use crate::client_event_loop::connector_closed_outcome;
use crate::client_event_loop::failure_replies;
use crate::client_event_loop::server_message_outcome;
use crate::client_event_loop::ButtplugClientEvent;
use crate::client_event_loop::ButtplugClientEventLoop;
use crate::client_event_loop::ButtplugClientMessageFuturePair;
use crate::client_event_loop::ButtplugClientRequest;
use crate::client_event_loop::LoopAction;
use crate::device::ButtplugClientDevice;
use crate::errors::ButtplugClientError;
use crate::errors::ButtplugConnectorError;
use crate::errors::ButtplugError;
use crate::errors::ButtplugHandshakeError;
use crate::errors::ButtplugMessageError;
use crate::messages::error_from_message;
use crate::messages::error_of;
use crate::messages::ButtplugCurrentSpecClientMessage;
use crate::messages::ButtplugCurrentSpecServerMessage;
use crate::messages::ClientRequest;
use crate::messages::ServerResponse;
use crate::messages::DEFAULT_SPEC_VERSION;
use crate::registry::no_devices;
use crate::sorter::wakers_of;
use crate::sorter::PendingRequest;

verus! {

/// What an operation of the client leads to: what is to be done, in order,
/// and what the caller is told at once.
#[derive(Debug, PartialEq, Eq)]
pub struct ClientStep {
    pub actions: Vec<LoopAction>,
    pub result: Result<(), ButtplugClientError>,
}

/// The error of an operation that needs a connection when there is none.
pub open spec fn not_connected() -> ButtplugClientError {
    ButtplugClientError::ButtplugConnectorError(ButtplugConnectorError::ConnectorNotConnected)
}

/// The error of a connect while connected.
pub open spec fn already_connected() -> ButtplugClientError {
    ButtplugClientError::ButtplugConnectorError(ButtplugConnectorError::ConnectorAlreadyConnected)
}

/// The error of a handshake that the server did not answer with its
/// description.
pub open spec fn handshake_mismatch() -> ButtplugClientError {
    ButtplugClientError::ButtplugError(
        ButtplugError::ButtplugHandshakeError(
            ButtplugHandshakeError::UnexpectedHandshakeMessageReceived,
        ),
    )
}

/// What is to be done with a request once the loop has taken it: it is sent
/// under the next identifier, or refused when the identifiers are used up.
pub open spec fn request_actions(next_id: u32, request: ClientRequest, waker: u64) -> Seq<
    LoopAction,
> {
    if next_id < u32::MAX {
        seq![LoopAction::Send((ButtplugCurrentSpecClientMessage { id: next_id, request }))]
    } else {
        seq![
            (LoopAction::Reply {
                waker,
                result: Err(
                    ButtplugClientError::ButtplugError(
                        ButtplugError::ButtplugMessageError(
                            ButtplugMessageError::IdentifiersExhausted,
                        ),
                    ),
                ),
            }),
        ]
    }
}

/// The pending table once the loop has taken a request.
pub open spec fn pending_after_request(pending: Map<u32, u64>, next_id: u32, waker: u64) -> Map<
    u32,
    u64,
> {
    if next_id < u32::MAX {
        pending.insert(next_id, waker)
    } else {
        pending
    }
}

/// The pending requests, oldest first, once the loop has taken a request.
pub open spec fn entries_after_request(entries: Seq<PendingRequest>, next_id: u32, waker: u64) -> Seq<
    PendingRequest,
> {
    if next_id < u32::MAX {
        entries.push((PendingRequest { id: next_id, waker }))
    } else {
        entries
    }
}

/// The identifier that the next request gets once the loop has taken one.
pub open spec fn next_id_after_request(next_id: u32) -> u32 {
    if next_id < u32::MAX {
        (next_id + 1) as u32
    } else {
        next_id
    }
}

/// What the reply to a request that expects `Ok` means to its caller.
pub open spec fn ok_or_error(reply: Result<ButtplugCurrentSpecServerMessage, ButtplugClientError>)
    -> Result<(), ButtplugClientError> {
    match reply {
        Err(err) => Err(err),
        Ok(msg) => match msg.response {
            ServerResponse::Success => Ok(()),
            ServerResponse::Error { code, message } => Err(
                ButtplugClientError::ButtplugError(error_of(code, message)),
            ),
            _ => Err(
                ButtplugClientError::ButtplugError(
                    ButtplugError::ButtplugMessageError(
                        ButtplugMessageError::UnexpectedMessageType,
                    ),
                ),
            ),
        },
    }
}

/// Tells the caller of a request that expects `Ok` what its reply means:
/// success on `Ok`, the server's error on `Error`, a protocol error on any
/// other reply, and the failure itself where no reply came.
pub fn send_message_expect_ok(
    reply: Result<ButtplugCurrentSpecServerMessage, ButtplugClientError>,
) -> (res: Result<(), ButtplugClientError>)
    ensures
        res == ok_or_error(reply),
{
    match reply {
        Err(err) => Err(err),
        Ok(msg) => match msg.response {
            ServerResponse::Success => Ok(()),
            ServerResponse::Error { code, message } => Err(
                ButtplugClientError::ButtplugError(error_from_message(code, message)),
            ),
            _ => Err(
                ButtplugClientError::ButtplugError(
                    ButtplugError::ButtplugMessageError(
                        ButtplugMessageError::UnexpectedMessageType,
                    ),
                ),
            ),
        },
    }
}

/// What sending a request does to a client, and what comes of it.
pub open spec fn send_outcome(
    before: ButtplugClient,
    after: ButtplugClient,
    request: ClientRequest,
    waker: u64,
    res: ClientStep,
) -> bool {
    &&& !before.is_connected() ==> {
        &&& res.result == Err::<(), ButtplugClientError>(not_connected())
        &&& res.actions@ == Seq::<LoopAction>::empty()
        &&& after == before
    }
    &&& before.is_connected() ==> {
        &&& res.result == Ok::<(), ButtplugClientError>(())
        &&& res.actions@ == request_actions(
            before.event_loop().sorter().next_id(),
            request,
            waker,
        )
        &&& after.is_connected()
        &&& after.name() == before.name()
        &&& after.server() == before.server()
        &&& after.event_loop().devices() == before.event_loop().devices()
        &&& after.event_loop().sorter().pending() == pending_after_request(
            before.event_loop().sorter().pending(),
            before.event_loop().sorter().next_id(),
            waker,
        )
        &&& after.event_loop().sorter().entries() == entries_after_request(
            before.event_loop().sorter().entries(),
            before.event_loop().sorter().next_id(),
            waker,
        )
        &&& after.event_loop().sorter().next_id() == next_id_after_request(
            before.event_loop().sorter().next_id(),
        )
    }
}

/// A device communication manager that an in-process server can be built
/// with.
#[derive(Clone, Copy, Debug, PartialEq, Eq, Structural)]
pub enum CommManager {
    Btleplug,
    WebsocketServer,
    SerialPort,
    LovenseConnectService,
    LovenseHidDongle,
    LovenseSerialDongle,
    XInput,
}

/// Which device communication managers the build holds.
#[derive(Clone, Copy, Debug, PartialEq, Eq, Structural)]
pub struct BuildFeatures {
    pub btleplug_manager: bool,
    pub websocket_server_manager: bool,
    pub serial_manager: bool,
    pub lovense_connect_service_manager: bool,
    pub lovense_dongle_manager: bool,
    pub xinput_manager: bool,
    /// Whether the build is for Windows.
    pub windows: bool,
}

/// The managers of one feature, where the build holds it.
pub open spec fn managers_if(enabled: bool, managers: Seq<CommManager>) -> Seq<CommManager> {
    if enabled {
        managers
    } else {
        Seq::empty()
    }
}

/// The managers that an in-process server gets, in the order in which they
/// are added. The gamepad manager is added on Windows only.
pub open spec fn comm_managers_of(build: BuildFeatures) -> Seq<CommManager> {
    managers_if(build.btleplug_manager, seq![CommManager::Btleplug]) + managers_if(
        build.websocket_server_manager,
        seq![CommManager::WebsocketServer],
    ) + managers_if(build.serial_manager, seq![CommManager::SerialPort]) + managers_if(
        build.lovense_connect_service_manager,
        seq![CommManager::LovenseConnectService],
    ) + managers_if(
        build.lovense_dongle_manager,
        seq![CommManager::LovenseHidDongle, CommManager::LovenseSerialDongle],
    ) + managers_if(build.xinput_manager && build.windows, seq![CommManager::XInput])
}

/// Lists the managers that an in-process server gets with the build.
pub fn in_process_comm_managers(build: BuildFeatures) -> (res: Vec<CommManager>)
    ensures
        res@ == comm_managers_of(build),
{
    let mut res: Vec<CommManager> = Vec::new();
    if build.btleplug_manager {
        res.push(CommManager::Btleplug);
    }
    if build.websocket_server_manager {
        res.push(CommManager::WebsocketServer);
    }
    if build.serial_manager {
        res.push(CommManager::SerialPort);
    }
    if build.lovense_connect_service_manager {
        res.push(CommManager::LovenseConnectService);
    }
    if build.lovense_dongle_manager {
        res.push(CommManager::LovenseHidDongle);
        res.push(CommManager::LovenseSerialDongle);
    }
    if build.xinput_manager && build.windows {
        res.push(CommManager::XInput);
    }
    assert(res@ =~= comm_managers_of(build));
    res
}

/// What connecting to an in-process server leads to: the managers that the
/// server is built with, and the step of the connect.
#[derive(Debug, PartialEq, Eq)]
pub struct InProcessConnect {
    pub managers: Vec<CommManager>,
    pub step: ClientStep,
}

/// What `connect` does to a client, and what comes of it.
pub open spec fn connect_outcome(
    before: ButtplugClient,
    after: ButtplugClient,
    connector: Result<(), ButtplugConnectorError>,
    waker: u64,
    res: ClientStep,
) -> bool {
    &&& before.is_connected() ==> {
        &&& res.result == Err::<(), ButtplugClientError>(already_connected())
        &&& res.actions@ == Seq::<LoopAction>::empty()
        &&& after == before
    }
    &&& !before.is_connected() && connector is Err ==> {
        &&& res.result == Err::<(), ButtplugClientError>(
            ButtplugClientError::ButtplugConnectorError(connector->Err_0),
        )
        &&& res.actions@ == Seq::<LoopAction>::empty()
        &&& after == before
    }
    &&& !before.is_connected() && connector is Ok ==> {
        &&& res.result == Ok::<(), ButtplugClientError>(())
        &&& res.actions@ == failure_replies(
            wakers_of(before.event_loop().sorter().entries()),
        ) + seq![
            LoopAction::Send(
                (ButtplugCurrentSpecClientMessage {
                    id: 1,
                    request: ClientRequest::RequestServerInfo {
                        client_name: before.name(),
                        spec_version: DEFAULT_SPEC_VERSION,
                    },
                }),
            ),
        ]
        &&& after.in_handshake()
        &&& after.name() == before.name()
        &&& after.server() == before.server()
        &&& after.event_loop().devices() == no_devices()
        &&& after.event_loop().sorter().next_id() == 2
        &&& after.event_loop().sorter().pending() == Map::<u32, u64>::empty().insert(1, waker)
        &&& after.event_loop().sorter().entries() == seq![(PendingRequest { id: 1, waker })]
    }
}

/// What `run_handshake` does to a client, and what comes of it.
pub open spec fn handshake_outcome(
    before: ButtplugClient,
    after: ButtplugClient,
    reply: Result<ButtplugCurrentSpecServerMessage, ButtplugClientError>,
    waker: u64,
    res: ClientStep,
) -> bool {
    &&& after.name() == before.name()
    &&& match reply {
        Err(err) => {
            &&& res.result == Err::<(), ButtplugClientError>(err)
            &&& res.actions@ == Seq::<LoopAction>::empty()
            &&& after == before
        },
        Ok(msg) => match msg.response {
            ServerResponse::ServerInfo { server_name, spec_version, max_ping_time } => {
                &&& res.result == Ok::<(), ButtplugClientError>(())
                &&& after.is_connected()
                &&& after.server() == Some(server_name)
                &&& res.actions@ == seq![LoopAction::Emit(ButtplugClientEvent::ServerConnect)]
                    + request_actions(
                    before.event_loop().sorter().next_id(),
                    ClientRequest::RequestDeviceList,
                    waker,
                )
                &&& after.event_loop().devices() == before.event_loop().devices()
                &&& after.event_loop().running()
                &&& after.event_loop().sorter().pending() == pending_after_request(
                    before.event_loop().sorter().pending(),
                    before.event_loop().sorter().next_id(),
                    waker,
                )
                &&& after.event_loop().sorter().entries() == entries_after_request(
                    before.event_loop().sorter().entries(),
                    before.event_loop().sorter().next_id(),
                    waker,
                )
                &&& after.event_loop().sorter().next_id() == next_id_after_request(
                    before.event_loop().sorter().next_id(),
                )
            },
            _ => {
                &&& res.result == Err::<(), ButtplugClientError>(handshake_mismatch())
                &&& !after.is_connected()
                &&& !after.event_loop().running()
                &&& after.server() == before.server()
                &&& after.event_loop().devices() == no_devices()
                &&& after.event_loop().sorter().pending() == Map::<u32, u64>::empty()
                &&& after.event_loop().sorter().entries() == Seq::<PendingRequest>::empty()
                &&& res.actions@ == seq![LoopAction::CloseConnector] + failure_replies(
                    wakers_of(before.event_loop().sorter().entries()),
                ) + seq![
                    LoopAction::Emit(ButtplugClientEvent::ServerDisconnect),
                    LoopAction::Acknowledge(waker),
                ]
            },
        },
    }
}

/// The first event that a run of actions publishes, if it publishes any.
pub open spec fn first_event(actions: Seq<LoopAction>) -> Option<ButtplugClientEvent>
    decreases actions.len(),
{
    if actions.len() == 0 {
        None
    } else {
        match actions[0] {
            LoopAction::Emit(event) => Some(event),
            _ => first_event(actions.drop_first()),
        }
    }
}

/// `ServerConnect` comes first: when a client that is not connected
/// connects through a connector that has connected, and the first message
/// of the server is its description in
/// answer to the handshake request, then the first event that is published
/// on the connection is `ServerConnect`.
pub proof fn law_handshake_ordering(
    idle: ButtplugClient,
    connecting: ButtplugClient,
    handshake_waker: u64,
    connect_step: ClientStep,
    description: ButtplugCurrentSpecServerMessage,
    awaiting: ButtplugClient,
    delivery: Seq<LoopAction>,
    connected: ButtplugClient,
    list_waker: u64,
    handshake_step: ClientStep,
)
    requires
        !idle.is_connected(),
        connect_outcome(idle, connecting, Ok(()), handshake_waker, connect_step),
        description.id == 1,
        description.response is ServerInfo,
        server_message_outcome(
            connecting.event_loop(),
            awaiting.event_loop(),
            description,
            delivery,
        ),
        handshake_outcome(awaiting, connected, Ok(description), list_waker, handshake_step),
    ensures
        connected.is_connected(),
        first_event(connect_step.actions@ + delivery + handshake_step.actions@) == Some(
            ButtplugClientEvent::ServerConnect,
        ),
{
    let failures = failure_replies(wakers_of(idle.event_loop().sorter().entries()));
    let rest = connect_step.actions@.subrange(failures.len() as int, failures.len() as int + 1)
        + delivery + handshake_step.actions@;
    assert(connecting.event_loop().sorter().pending().contains_key(1));
    assert(delivery.len() == 1);
    assert(handshake_step.actions@[0] == LoopAction::Emit(ButtplugClientEvent::ServerConnect));
    assert(rest[0] == connect_step.actions@[failures.len() as int]);
    assert(rest[1] == delivery[0]);
    assert(rest[2] == handshake_step.actions@[0]);
    let second = rest.drop_first();
    let third = second.drop_first();
    assert(second[0] == rest[1]);
    assert(third[0] == rest[2]);
    assert(first_event(third) == Some(ButtplugClientEvent::ServerConnect));
    assert(first_event(second) == first_event(third));
    assert(first_event(rest) == first_event(second));
    lemma_failures_publish_nothing(wakers_of(idle.event_loop().sorter().entries()), rest);
    assert(failures + rest =~= connect_step.actions@ + delivery + handshake_step.actions@);
}

/// Failed replies publish no event: the first event of a run of actions
/// that begins with them is the first event of what follows them.
pub proof fn lemma_failures_publish_nothing(wakers: Seq<u64>, rest: Seq<LoopAction>)
    ensures
        first_event(failure_replies(wakers) + rest) == first_event(rest),
    decreases wakers.len(),
{
    let all = failure_replies(wakers) + rest;
    if wakers.len() == 0 {
        assert(all =~= rest);
    } else {
        let later = wakers.drop_first();
        lemma_failures_publish_nothing(later, rest);
        assert(all[0] == failure_replies(wakers)[0]);
        assert(all.drop_first() =~= failure_replies(later) + rest);
    }
}

/// The state of a client: its name, the name of the server once the
/// handshake has succeeded, whether it is connected, and its event loop.
pub struct ButtplugClient {
    client_name: String,
    server_name: Option<String>,
    connected: bool,
    event_loop: ButtplugClientEventLoop,
}

impl ButtplugClient {
    /// The name that the client gives the server.
    pub closed spec fn name(&self) -> String {
        self.client_name
    }

    /// The name of the server, known once the handshake has succeeded.
    pub closed spec fn server(&self) -> Option<String> {
        self.server_name
    }

    /// Whether the client is connected.
    pub closed spec fn is_connected(&self) -> bool {
        self.connected
    }

    /// The event loop of the client.
    pub closed spec fn event_loop(&self) -> ButtplugClientEventLoop {
        self.event_loop
    }

    /// The loop is in order, and it runs while the client is connected.
    pub open spec fn wf(&self) -> bool {
        &&& self.event_loop().wf()
        &&& self.is_connected() ==> self.event_loop().running()
    }

    /// Whether the handshake is under way: the loop runs and the server has
    /// not described itself yet.
    pub open spec fn in_handshake(&self) -> bool {
        self.event_loop().running() && !self.is_connected()
    }

    /// A client that is not connected.
    pub fn new(name: &str) -> (res: Self)
        ensures
            res.wf(),
            res.name()@ == name@,
            res.server() is None,
            !res.is_connected(),
            !res.event_loop().running(),
            res.event_loop().devices() == no_devices(),
            res.event_loop().sorter().next_id() == 1,
            res.event_loop().sorter().entries() == Seq::<PendingRequest>::empty(),
            res.event_loop().sorter().pending() == Map::<u32, u64>::empty(),
    {
        ButtplugClient {
            client_name: name.to_owned(),
            server_name: None,
            connected: false,
            event_loop: ButtplugClientEventLoop::stopped(),
        }
    }

    /// Returns true if client is currently connected.
    pub fn connected(&self) -> (res: bool)
        ensures
            res == self.is_connected(),
    {
        self.connected
    }

    /// Tells whether the event loop of the client runs.
    pub fn running(&self) -> (res: bool)
        ensures
            res == self.event_loop().running(),
    {
        self.event_loop.is_running()
    }

    /// The name of the server, once the handshake has succeeded.
    pub fn server_name(&self) -> (res: Option<String>)
        ensures
            res == self.server(),
    {
        match &self.server_name {
            Some(name) => Some(name.clone()),
            None => None,
        }
    }

    /// The devices that the server has at present, each once, in no
    /// promised order.
    pub fn devices(&self) -> (res: Vec<ButtplugClientDevice>)
        requires
            self.wf(),
        ensures
            forall|i: int|
                0 <= i < res@.len() ==> self.event_loop().devices().contains_pair(
                    (#[trigger] res@[i]).index,
                    res@[i],
                ),
            forall|i: int, j: int|
                0 <= i < res@.len() && 0 <= j < res@.len() && i != j ==> (#[trigger] res@[i]).index
                    != (#[trigger] res@[j]).index,
            forall|index: u32| #[trigger]
                self.event_loop().devices().contains_key(index) ==> exists|i: int|
                    0 <= i < res@.len() && (#[trigger] res@[i]).index == index,
    {
        self.event_loop.device_list()
    }

    /// Begins a connection, once the connector has tried to connect and
    /// `connector` says how that went. A connected client refuses, and stays
    /// as it is. Where the connector failed, its error is handed on: no loop
    /// starts, nothing is sent and the client stays as it is. Otherwise the
    /// requests that an unfinished handshake left pending fail, a new event
    /// loop starts, and the handshake request goes out as the first message
    /// of the connection; its reply is owed to `waker`.
    pub fn connect(&mut self, connector: Result<(), ButtplugConnectorError>, waker: u64) -> (res:
        ClientStep)
        requires
            old(self).wf(),
        ensures
            final(self).wf(),
            connect_outcome(*old(self), *final(self), connector, waker, res),
    {
        if self.connected {
            return ClientStep {
                actions: Vec::new(),
                result: Err(
                    ButtplugClientError::ButtplugConnectorError(
                        ButtplugConnectorError::ConnectorAlreadyConnected,
                    ),
                ),
            };
        }
        match connector {
            Err(err) => {
                return ClientStep {
                    actions: Vec::new(),
                    result: Err(ButtplugClientError::ButtplugConnectorError(err)),
                };
            },
            Ok(_) => {},
        }
        let mut actions: Vec<LoopAction> = Vec::new();
        self.event_loop.fail_pending(&mut actions);
        self.event_loop = ButtplugClientEventLoop::new();
        let msg = ButtplugCurrentSpecClientMessage::new(
            ClientRequest::RequestServerInfo {
                client_name: self.client_name.clone(),
                spec_version: DEFAULT_SPEC_VERSION,
            },
        );
        let mut sent = self.event_loop.handle_client_request(
            ButtplugClientRequest::Message(ButtplugClientMessageFuturePair::new(msg, waker)),
        );
        actions.append(&mut sent);
        ClientStep { actions, result: Ok(()) }
    }

    /// Takes the reply to the handshake request.
    ///
    /// On the server's description the client is connected: it remembers
    /// the server's name, emits `ServerConnect` before anything else, and
    /// asks for the list of devices, whose reply is owed to `waker`. On any
    /// other reply the connection is taken down and the handshake has
    /// failed; `waker` is then told that the disconnect is done. Where no
    /// reply came, the failure is handed on.
    pub fn run_handshake(
        &mut self,
        reply: Result<ButtplugCurrentSpecServerMessage, ButtplugClientError>,
        waker: u64,
    ) -> (res: ClientStep)
        requires
            old(self).wf(),
            old(self).in_handshake(),
        ensures
            final(self).wf(),
            handshake_outcome(*old(self), *final(self), reply, waker, res),
    {
        let msg = match reply {
            Err(err) => {
                return ClientStep { actions: Vec::new(), result: Err(err) };
            },
            Ok(msg) => msg,
        };
        match msg.response {
            ServerResponse::ServerInfo { server_name, spec_version: _, max_ping_time: _ } => {
                self.server_name = Some(server_name);
                self.connected = true;
                let mut actions: Vec<LoopAction> = Vec::new();
                actions.push(LoopAction::Emit(ButtplugClientEvent::ServerConnect));
                let request = ButtplugCurrentSpecClientMessage::new(
                    ClientRequest::RequestDeviceList,
                );
                let mut sent = self.event_loop.handle_client_request(
                    ButtplugClientRequest::Message(
                        ButtplugClientMessageFuturePair::new(request, waker),
                    ),
                );
                actions.append(&mut sent);
                assert(actions@ =~= seq![LoopAction::Emit(ButtplugClientEvent::ServerConnect)]
                    + request_actions(
                    old(self).event_loop().sorter().next_id(),
                    ClientRequest::RequestDeviceList,
                    waker,
                ));
                ClientStep { actions, result: Ok(()) }
            },
            _ => {
                let actions = self.event_loop.handle_client_request(
                    ButtplugClientRequest::Disconnect(waker),
                );
                ClientStep {
                    actions,
                    result: Err(
                        ButtplugClientError::ButtplugError(
                            ButtplugError::ButtplugHandshakeError(
                                ButtplugHandshakeError::UnexpectedHandshakeMessageReceived,
                            ),
                        ),
                    ),
                }
            },
        }
    }

    /// Takes the reply to the request for the list of devices. The listed
    /// devices enter the registry, first to last, with a `DeviceAdded` event
    /// for each. A reply of another kind changes nothing; where no reply
    /// came, the failure is handed on.
    pub fn handle_device_list(
        &mut self,
        reply: Result<ButtplugCurrentSpecServerMessage, ButtplugClientError>,
    ) -> (res: ClientStep)
        requires
            old(self).wf(),
            old(self).event_loop().running(),
        ensures
            final(self).wf(),
            final(self).name() == old(self).name(),
            final(self).server() == old(self).server(),
            final(self).is_connected() == old(self).is_connected(),
            final(self).event_loop().running(),
            final(self).event_loop().sorter() == old(self).event_loop().sorter(),
            match reply {
                Err(err) => {
                    &&& res.result == Err::<(), ButtplugClientError>(err)
                    &&& res.actions@ == Seq::<LoopAction>::empty()
                    &&& final(self).event_loop().devices() == old(self).event_loop().devices()
                },
                Ok(msg) => match msg.response {
                    ServerResponse::DeviceList { devices } => {
                        &&& res.result == Ok::<(), ButtplugClientError>(())
                        &&& res.actions@ == device_added_events(devices@)
                        &&& final(self).event_loop().devices() == devices_after_list(
                            old(self).event_loop().devices(),
                            devices@,
                        )
                    },
                    _ => {
                        &&& res.result == Ok::<(), ButtplugClientError>(())
                        &&& res.actions@ == Seq::<LoopAction>::empty()
                        &&& final(self).event_loop().devices() == old(self).event_loop().devices()
                    },
                },
            },
    {
        match reply {
            Err(err) => ClientStep { actions: Vec::new(), result: Err(err) },
            Ok(msg) => match msg.response {
                ServerResponse::DeviceList { devices } => {
                    let actions = self.event_loop.handle_client_request(
                        ButtplugClientRequest::HandleDeviceList(devices),
                    );
                    ClientStep { actions, result: Ok(()) }
                },
                _ => ClientStep { actions: Vec::new(), result: Ok(()) },
            },
        }
    }

    /// Ends the connection. A client that is not connected refuses, and
    /// stays as it is. Otherwise the connector is closed, every pending
    /// request fails, `ServerDisconnect` is the last event, `waker` is told
    /// that it is done, and the client is no longer connected.
    pub fn disconnect(&mut self, waker: u64) -> (res: ClientStep)
        requires
            old(self).wf(),
        ensures
            final(self).wf(),
            !final(self).is_connected(),
            !old(self).is_connected() ==> {
                &&& res.result == Err::<(), ButtplugClientError>(not_connected())
                &&& res.actions@ == Seq::<LoopAction>::empty()
                &&& *final(self) == *old(self)
            },
            old(self).is_connected() ==> {
                &&& res.result == Ok::<(), ButtplugClientError>(())
                &&& !final(self).event_loop().running()
                &&& final(self).name() == old(self).name()
                &&& final(self).server() == old(self).server()
                &&& final(self).event_loop().devices() == no_devices()
                &&& final(self).event_loop().sorter().pending() == Map::<u32, u64>::empty()
                &&& final(self).event_loop().sorter().entries() == Seq::<PendingRequest>::empty()
                &&& res.actions@ == seq![LoopAction::CloseConnector] + failure_replies(
                    wakers_of(old(self).event_loop().sorter().entries()),
                ) + seq![
                    LoopAction::Emit(ButtplugClientEvent::ServerDisconnect),
                    LoopAction::Acknowledge(waker),
                ]
            },
    {
        if !self.connected {
            return ClientStep {
                actions: Vec::new(),
                result: Err(
                    ButtplugClientError::ButtplugConnectorError(
                        ButtplugConnectorError::ConnectorNotConnected,
                    ),
                ),
            };
        }
        let actions = self.event_loop.handle_client_request(
            ButtplugClientRequest::Disconnect(waker),
        );
        self.connected = false;
        ClientStep { actions, result: Ok(()) }
    }

    /// Sends a request to the server. A client that is not connected
    /// refuses, and stays as it is. Otherwise the request goes out under
    /// the next identifier and its reply is owed to `waker`.
    pub fn send_message(&mut self, request: ClientRequest, waker: u64) -> (res: ClientStep)
        requires
            old(self).wf(),
        ensures
            final(self).wf(),
            send_outcome(*old(self), *final(self), request, waker, res),
    {
        if !self.connected {
            return ClientStep {
                actions: Vec::new(),
                result: Err(
                    ButtplugClientError::ButtplugConnectorError(
                        ButtplugConnectorError::ConnectorNotConnected,
                    ),
                ),
            };
        }
        let msg = ButtplugCurrentSpecClientMessage::new(request);
        let actions = self.event_loop.handle_client_request(
            ButtplugClientRequest::Message(ButtplugClientMessageFuturePair::new(msg, waker)),
        );
        ClientStep { actions, result: Ok(()) }
    }
    /// Connects to a server in this process. The server is built with the
    /// managers that the build holds; the connection then begins as in
    /// `connect`.
    pub fn connect_in_process(
        &mut self,
        build: BuildFeatures,
        connector: Result<(), ButtplugConnectorError>,
        waker: u64,
    ) -> (res: InProcessConnect)
        requires
            old(self).wf(),
        ensures
            final(self).wf(),
            res.managers@ == comm_managers_of(build),
            connect_outcome(*old(self), *final(self), connector, waker, res.step),
    {
        let managers = in_process_comm_managers(build);
        let step = self.connect(connector, waker);
        InProcessConnect { managers, step }
    }

    /// Tells server to start scanning for devices.
    pub fn start_scanning(&mut self, waker: u64) -> (res: ClientStep)
        requires
            old(self).wf(),
        ensures
            final(self).wf(),
            send_outcome(*old(self), *final(self), ClientRequest::StartScanning, waker, res),
    {
        self.send_message(ClientRequest::StartScanning, waker)
    }

    /// Tells server to stop scanning for devices.
    pub fn stop_scanning(&mut self, waker: u64) -> (res: ClientStep)
        requires
            old(self).wf(),
        ensures
            final(self).wf(),
            send_outcome(*old(self), *final(self), ClientRequest::StopScanning, waker, res),
    {
        self.send_message(ClientRequest::StopScanning, waker)
    }

    /// Tells server to stop all devices.
    pub fn stop_all_devices(&mut self, waker: u64) -> (res: ClientStep)
        requires
            old(self).wf(),
        ensures
            final(self).wf(),
            send_outcome(*old(self), *final(self), ClientRequest::StopAllDevices, waker, res),
    {
        self.send_message(ClientRequest::StopAllDevices, waker)
    }

    /// Pings the server.
    pub fn ping(&mut self, waker: u64) -> (res: ClientStep)
        requires
            old(self).wf(),
        ensures
            final(self).wf(),
            send_outcome(*old(self), *final(self), ClientRequest::Ping, waker, res),
    {
        self.send_message(ClientRequest::Ping, waker)
    }

    /// Takes a message of the server while the loop runs: a reply goes to
    /// the slot of its request, anything else is an event.
    pub fn handle_server_message(&mut self, msg: ButtplugCurrentSpecServerMessage) -> (actions:
        Vec<LoopAction>)
        requires
            old(self).wf(),
            old(self).event_loop().running(),
        ensures
            final(self).wf(),
            final(self).name() == old(self).name(),
            final(self).server() == old(self).server(),
            final(self).is_connected() == old(self).is_connected(),
            server_message_outcome(old(self).event_loop(), final(self).event_loop(), msg, actions@),
    {
        self.event_loop.handle_server_message(msg)
    }

    /// Takes the end of the connection while the loop runs: the client is
    /// no longer connected, `ServerDisconnect` is emitted, and every pending
    /// request fails.
    pub fn handle_connector_closed(&mut self) -> (actions: Vec<LoopAction>)
        requires
            old(self).wf(),
            old(self).event_loop().running(),
        ensures
            final(self).wf(),
            final(self).name() == old(self).name(),
            final(self).server() == old(self).server(),
            !final(self).is_connected(),
            connector_closed_outcome(old(self).event_loop(), final(self).event_loop(), actions@),
    {
        self.connected = false;
        self.event_loop.handle_connector_closed()
    }
}

} // verus!
