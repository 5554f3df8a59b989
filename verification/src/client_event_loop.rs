//! The steps of the client event loop.
//!
//! The loop owns the message sorter and the device registry. Each step takes
//! what has happened (a request of the client, a message of the server, the
//! end of the connection) and returns, in order, what is to be done about it.

use vstd::prelude::*;
use crate::device::handle_of;
use crate::device::removed_handle;
use crate::device::ButtplugClientDevice;
use crate::errors::ButtplugClientError;
use crate::errors::ButtplugConnectorError;
use crate::errors::ButtplugError;
use crate::errors::ButtplugMessageError;
use crate::messages::error_from_message;
use crate::messages::error_of;
use crate::messages::ButtplugCurrentSpecClientMessage;
use crate::messages::ButtplugCurrentSpecServerMessage;
use crate::messages::DeviceMessageInfo;
use crate::messages::ServerResponse;
use crate::messages::SERVER_EVENT_ID;
use crate::registry::is_listing_of;
use crate::registry::no_devices;
use crate::registry::registry_clear;
use crate::registry::registry_contents;
use crate::registry::registry_entries;
use crate::registry::registry_insert;
use crate::registry::registry_new;
use crate::registry::registry_remove;
use crate::registry::DeviceRegistry;
use crate::sorter::distinct_ids;
use crate::sorter::index_of;
use crate::sorter::lemma_lookup;
use crate::sorter::pending_after_reply;
use crate::sorter::pending_map;
use crate::sorter::wakers_of;
use crate::sorter::ClientMessageSorter;
use crate::sorter::PendingRequest;
use crate::sorter::SortedReply;

verus! {

/// A message for the server together with the handle of the one-shot slot
/// that its reply is owed to.
#[derive(Clone, Debug, PartialEq, Eq)]
pub struct ButtplugClientMessageFuturePair {
    pub msg: ButtplugCurrentSpecClientMessage,
    pub waker: u64,
}

impl ButtplugClientMessageFuturePair {
    pub fn new(msg: ButtplugCurrentSpecClientMessage, waker: u64) -> (res: Self)
        ensures
            res.msg == msg,
            res.waker == waker,
    {
        ButtplugClientMessageFuturePair { msg, waker }
    }
}

/// What the client facade asks of the loop.
#[derive(Clone, Debug, PartialEq, Eq)]
pub enum ButtplugClientRequest {
    /// Send the message and deliver the reply to the slot.
    Message(ButtplugClientMessageFuturePair),
    /// Enter the devices that the server listed at the handshake.
    HandleDeviceList(Vec<DeviceMessageInfo>),
    /// End the connection; the slot is told when it is done.
    Disconnect(u64),
}

/// What subscribers of the client are told.
#[derive(Clone, Debug, PartialEq, Eq)]
pub enum ButtplugClientEvent {
    /// A scanning session has finished.
    ScanningFinished,
    /// The server has a new device.
    DeviceAdded(ButtplugClientDevice),
    /// The server has lost a device; its handle is no longer connected.
    DeviceRemoved(ButtplugClientDevice),
    /// The client has not pinged the server in time. No step of the loop
    /// leads to this event: what the server says about a missed ping arrives
    /// as an `Error` message and is published as `Error`, unchanged. The
    /// event is for a caller that watches the ping time itself.
    PingTimeout,
    /// The handshake with the server has succeeded.
    ServerConnect,
    /// The connection to the server has ended.
    ServerDisconnect,
    /// The server reported an error that answers no request.
    Error(ButtplugError),
}

/// What the caller of a step has to do, in the order given.
#[derive(Debug, PartialEq, Eq)]
pub enum LoopAction {
    /// Hand the message to the connector.
    Send(ButtplugCurrentSpecClientMessage),
    /// Fulfil the reply slot with the result.
    Reply { waker: u64, result: Result<ButtplugCurrentSpecServerMessage, ButtplugClientError> },
    /// Tell the slot of a disconnect request that the connection is down.
    Acknowledge(u64),
    /// Publish the event to every subscriber.
    Emit(ButtplugClientEvent),
    /// Tear the connector down.
    CloseConnector,
}

/// The failure that every pending request receives when the connection ends.
pub open spec fn channel_closed() -> ButtplugClientError {
    ButtplugClientError::ButtplugConnectorError(ButtplugConnectorError::ConnectorChannelClosed)
}

/// One failed reply for each slot, in the order of the slots.
pub open spec fn failure_replies(wakers: Seq<u64>) -> Seq<LoopAction> {
    Seq::new(
        wakers.len(),
        |i: int| (LoopAction::Reply { waker: wakers[i], result: Err(channel_closed()) }),
    )
}

/// One `DeviceAdded` event for each listed device, in the order of the list.
pub open spec fn device_added_events(list: Seq<DeviceMessageInfo>) -> Seq<LoopAction> {
    Seq::new(
        list.len(),
        |i: int| LoopAction::Emit(ButtplugClientEvent::DeviceAdded(handle_of(list[i]))),
    )
}

/// The registry after the listed devices have been entered, first to last.
pub open spec fn devices_after_list(
    devices: Map<u32, ButtplugClientDevice>,
    list: Seq<DeviceMessageInfo>,
) -> Map<u32, ButtplugClientDevice>
    decreases list.len(),
{
    if list.len() == 0 {
        devices
    } else {
        devices_after_list(devices, list.drop_last()).insert(
            list.last().device_index,
            handle_of(list.last()),
        )
    }
}

/// The registry after a message that the server sent unasked.
pub open spec fn devices_after_unsolicited(
    devices: Map<u32, ButtplugClientDevice>,
    response: ServerResponse,
) -> Map<u32, ButtplugClientDevice> {
    match response {
        ServerResponse::DeviceAdded { device } => devices.insert(
            device.device_index,
            handle_of(device),
        ),
        ServerResponse::DeviceRemoved { device_index } => devices.remove(device_index),
        _ => devices,
    }
}

/// What is to be done about a message that the server sent unasked.
pub open spec fn unsolicited_actions(
    devices: Map<u32, ButtplugClientDevice>,
    response: ServerResponse,
) -> Seq<LoopAction> {
    match response {
        ServerResponse::ScanningFinished => seq![
            LoopAction::Emit(ButtplugClientEvent::ScanningFinished),
        ],
        ServerResponse::DeviceAdded { device } => seq![
            LoopAction::Emit(ButtplugClientEvent::DeviceAdded(handle_of(device))),
        ],
        ServerResponse::DeviceRemoved { device_index } => if devices.contains_key(device_index) {
            seq![
                LoopAction::Emit(
                    ButtplugClientEvent::DeviceRemoved(removed_handle(devices[device_index])),
                ),
            ]
        } else {
            Seq::empty()
        },
        ServerResponse::Error { code, message } => seq![
            LoopAction::Emit(ButtplugClientEvent::Error(error_of(code, message))),
        ],
        _ => seq![
            LoopAction::Emit(
                ButtplugClientEvent::Error(
                    ButtplugError::ButtplugMessageError(
                        ButtplugMessageError::UnexpectedMessageType,
                    ),
                ),
            ),
        ],
    }
}

/// Every handle in the registry stands under its own index and is connected.
pub open spec fn registry_wf(devices: Map<u32, ButtplugClientDevice>) -> bool {
    forall|index: u32| #[trigger]
        devices.contains_key(index) ==> devices[index].index == index && devices[index].connected
}

/// The state of the loop: the sorter, the registry, and whether it runs.
pub struct ButtplugClientEventLoop {
    sorter: ClientMessageSorter,
    device_map: DeviceRegistry,
    running: bool,
}

impl ButtplugClientEventLoop {
    /// The sorter of the loop.
    pub closed spec fn sorter(&self) -> ClientMessageSorter {
        self.sorter
    }

    /// The registry: the handle of each device index.
    pub closed spec fn devices(&self) -> Map<u32, ButtplugClientDevice> {
        registry_contents(self.device_map)
    }

    /// Whether the loop has not exited.
    pub closed spec fn running(&self) -> bool {
        self.running
    }

    /// The sorter is in order, and so is the registry.
    pub open spec fn wf(&self) -> bool {
        &&& self.sorter().wf()
        &&& registry_wf(self.devices())
    }

    /// The loop of a new connection: nothing pending, no device, running.
    pub fn new() -> (res: Self)
        ensures
            res.wf(),
            res.running(),
            res.devices() == no_devices(),
            res.sorter().next_id() == 1,
            res.sorter().entries() == Seq::<PendingRequest>::empty(),
            res.sorter().pending() == Map::<u32, u64>::empty(),
    {
        ButtplugClientEventLoop {
            sorter: ClientMessageSorter::new(),
            device_map: registry_new(),
            running: true,
        }
    }

    /// A loop that has ended, or has not begun: nothing pending, no device.
    pub fn stopped() -> (res: Self)
        ensures
            res.wf(),
            !res.running(),
            res.devices() == no_devices(),
            res.sorter().next_id() == 1,
            res.sorter().entries() == Seq::<PendingRequest>::empty(),
            res.sorter().pending() == Map::<u32, u64>::empty(),
    {
        ButtplugClientEventLoop {
            sorter: ClientMessageSorter::new(),
            device_map: registry_new(),
            running: false,
        }
    }

    /// Tells whether the loop has not exited.
    pub fn is_running(&self) -> (res: bool)
        ensures
            res == self.running(),
    {
        self.running
    }

    /// The handles in the registry, each device once, in no promised order.
    pub fn device_list(&self) -> (res: Vec<ButtplugClientDevice>)
        requires
            self.wf(),
        ensures
            forall|i: int|
                0 <= i < res@.len() ==> self.devices().contains_pair(
                    (#[trigger] res@[i]).index,
                    res@[i],
                ),
            forall|i: int, j: int|
                0 <= i < res@.len() && 0 <= j < res@.len() && i != j ==> (#[trigger] res@[i]).index
                    != (#[trigger] res@[j]).index,
            forall|index: u32| #[trigger]
                self.devices().contains_key(index) ==> exists|i: int|
                    0 <= i < res@.len() && (#[trigger] res@[i]).index == index,
    {
        let entries = registry_entries(&self.device_map);
        let mut res: Vec<ButtplugClientDevice> = Vec::new();
        let mut i: usize = 0;
        while i < entries.len()
            invariant
                i <= entries.len(),
                res@.len() == i,
                forall|j: int| 0 <= j < i ==> (#[trigger] res@[j]) == entries@[j].device,
            decreases entries.len() - i,
        {
            res.push(entries[i].device.clone());
            i = i + 1;
        }
        proof {
            let devices = self.devices();
            assert(is_listing_of(entries@, devices));
            assert forall|j: int| 0 <= j < res@.len() implies (#[trigger] res@[j]).index
                == entries@[j].index && devices.contains_pair(res@[j].index, res@[j]) by {
                assert(devices.contains_pair(entries@[j].index, entries@[j].device));
                assert(devices.contains_key(entries@[j].index));
            }
            assert forall|index: u32| #[trigger] devices.contains_key(index) implies exists|i: int|
                0 <= i < res@.len() && (#[trigger] res@[i]).index == index by {
                let i = choose|i: int|
                    0 <= i < entries@.len() && (#[trigger] entries@[i]).index == index;
                assert(res@[i].index == index);
            }
        }
        res
    }
}

impl ButtplugClientEventLoop {
    /// Delivers a failure to every pending request, oldest first, and
    /// empties the pending table.
    pub(crate) fn fail_pending(&mut self, actions: &mut Vec<LoopAction>)
        requires
            old(self).wf(),
        ensures
            final(self).wf(),
            final(self).running() == old(self).running(),
            final(self).devices() == old(self).devices(),
            final(self).sorter().next_id() == old(self).sorter().next_id(),
            final(self).sorter().entries() == Seq::<PendingRequest>::empty(),
            final(self).sorter().pending() == Map::<u32, u64>::empty(),
            final(actions)@ == old(actions)@ + failure_replies(
                wakers_of(old(self).sorter().entries()),
            ),
    {
        let wakers = self.sorter.fail_all();
        let ghost before = actions@;
        let mut i: usize = 0;
        while i < wakers.len()
            invariant
                i <= wakers.len(),
                actions@ == before + failure_replies(wakers@.take(i as int)),
            decreases wakers.len() - i,
        {
            actions.push(
                LoopAction::Reply {
                    waker: wakers[i],
                    result: Err(
                        ButtplugClientError::ButtplugConnectorError(
                            ButtplugConnectorError::ConnectorChannelClosed,
                        ),
                    ),
                },
            );
            i = i + 1;
            assert(actions@ =~= before + failure_replies(wakers@.take(i as int)));
        }
        assert(wakers@.take(i as int) =~= wakers@);
    }

    /// Enters the listed devices into the registry, first to last, and
    /// announces each.
    fn enter_device_list(&mut self, list: Vec<DeviceMessageInfo>) -> (actions: Vec<LoopAction>)
        requires
            old(self).wf(),
        ensures
            final(self).wf(),
            final(self).running() == old(self).running(),
            final(self).sorter() == old(self).sorter(),
            final(self).devices() == devices_after_list(old(self).devices(), list@),
            actions@ == device_added_events(list@),
    {
        let mut actions: Vec<LoopAction> = Vec::new();
        let mut i: usize = 0;
        assert(actions@ =~= device_added_events(list@.take(0)));
        while i < list.len()
            invariant
                i <= list.len(),
                self.wf(),
                self.running() == old(self).running(),
                self.sorter() == old(self).sorter(),
                self.devices() == devices_after_list(old(self).devices(), list@.take(i as int)),
                actions@ == device_added_events(list@.take(i as int)),
            decreases list.len() - i,
        {
            let device = ButtplugClientDevice::new(list[i].clone());
            let _ = registry_insert(&mut self.device_map, device.index, device.clone());
            actions.push(LoopAction::Emit(ButtplugClientEvent::DeviceAdded(device)));
            proof {
                let next = list@.take(i + 1);
                assert(next.drop_last() =~= list@.take(i as int));
                assert(next.last() == list@[i as int]);
                assert(actions@ =~= device_added_events(next));
            }
            i = i + 1;
        }
        assert(list@.take(i as int) =~= list@);
        actions
    }

    /// One step of the loop on a request of the client facade.
    ///
    /// A message gets the next identifier, its slot is recorded and it is
    /// sent; when the identifiers are used up the slot receives an error.
    /// A device list is entered into the registry, with a `DeviceAdded`
    /// event for each entry. A disconnect closes the connector, fails every
    /// pending request, empties the registry, emits `ServerDisconnect` as
    /// the last event and ends the loop.
    pub fn handle_client_request(&mut self, request: ButtplugClientRequest) -> (actions: Vec<
        LoopAction,
    >)
        requires
            old(self).wf(),
            old(self).running(),
        ensures
            final(self).wf(),
            match request {
                ButtplugClientRequest::Message(pair) => {
                    &&& final(self).running()
                    &&& final(self).devices() == old(self).devices()
                    &&& old(self).sorter().next_id() < u32::MAX ==> {
                        &&& actions@ == seq![
                            LoopAction::Send(
                                (ButtplugCurrentSpecClientMessage {
                                    id: old(self).sorter().next_id(),
                                    request: pair.msg.request,
                                }),
                            ),
                        ]
                        &&& final(self).sorter().next_id() == old(self).sorter().next_id() + 1
                        &&& final(self).sorter().entries() == old(self).sorter().entries().push(
                            (PendingRequest { id: old(self).sorter().next_id(), waker: pair.waker }),
                        )
                        &&& final(self).sorter().pending() == old(self).sorter().pending().insert(
                            old(self).sorter().next_id(),
                            pair.waker,
                        )
                    }
                    &&& old(self).sorter().next_id() == u32::MAX ==> {
                        &&& actions@ == seq![
                            (LoopAction::Reply {
                                waker: pair.waker,
                                result: Err(
                                    ButtplugClientError::ButtplugError(
                                        ButtplugError::ButtplugMessageError(
                                            ButtplugMessageError::IdentifiersExhausted,
                                        ),
                                    ),
                                ),
                            }),
                        ]
                        &&& final(self).sorter() == old(self).sorter()
                    }
                },
                ButtplugClientRequest::HandleDeviceList(list) => {
                    &&& final(self).running()
                    &&& final(self).sorter() == old(self).sorter()
                    &&& final(self).devices() == devices_after_list(old(self).devices(), list@)
                    &&& actions@ == device_added_events(list@)
                },
                ButtplugClientRequest::Disconnect(waker) => {
                    &&& !final(self).running()
                    &&& final(self).devices() == no_devices()
                    &&& final(self).sorter().next_id() == old(self).sorter().next_id()
                    &&& final(self).sorter().pending() == Map::<u32, u64>::empty()
                    &&& final(self).sorter().entries() == Seq::<PendingRequest>::empty()
                    &&& actions@ == seq![LoopAction::CloseConnector] + failure_replies(
                        wakers_of(old(self).sorter().entries()),
                    ) + seq![
                        LoopAction::Emit(ButtplugClientEvent::ServerDisconnect),
                        LoopAction::Acknowledge(waker),
                    ]
                },
            },
    {
        match request {
            ButtplugClientRequest::Message(pair) => {
                let waker = pair.waker;
                let mut actions: Vec<LoopAction> = Vec::new();
                match self.sorter.register(pair.msg, waker) {
                    Some(msg) => {
                        actions.push(LoopAction::Send(msg));
                    },
                    None => {
                        actions.push(
                            LoopAction::Reply {
                                waker,
                                result: Err(
                                    ButtplugClientError::ButtplugError(
                                        ButtplugError::ButtplugMessageError(
                                            ButtplugMessageError::IdentifiersExhausted,
                                        ),
                                    ),
                                ),
                            },
                        );
                    },
                }
                assert(actions@.len() == 1);
                assert(actions@ =~= seq![actions@[0]]);
                actions
            },
            ButtplugClientRequest::HandleDeviceList(list) => self.enter_device_list(list),
            ButtplugClientRequest::Disconnect(waker) => {
                let mut actions: Vec<LoopAction> = Vec::new();
                actions.push(LoopAction::CloseConnector);
                assert(actions@ =~= seq![LoopAction::CloseConnector]);
                self.fail_pending(&mut actions);
                registry_clear(&mut self.device_map);
                actions.push(LoopAction::Emit(ButtplugClientEvent::ServerDisconnect));
                actions.push(LoopAction::Acknowledge(waker));
                self.running = false;
                assert(actions@ =~= seq![LoopAction::CloseConnector] + failure_replies(
                    wakers_of(old(self).sorter().entries()),
                ) + seq![
                    LoopAction::Emit(ButtplugClientEvent::ServerDisconnect),
                    LoopAction::Acknowledge(waker),
                ]);
                actions
            },
        }
    }

    /// One step of the loop on a message of the server.
    ///
    /// A message with a request identifier goes to the slot of the pending
    /// request that it answers; where there is none, an `Error` event says
    /// so. A message without one is an event: it is published, and a device
    /// that comes or goes enters or leaves the registry.
    pub fn handle_server_message(&mut self, msg: ButtplugCurrentSpecServerMessage) -> (actions: Vec<
        LoopAction,
    >)
        requires
            old(self).wf(),
            old(self).running(),
        ensures
            final(self).wf(),
            server_message_outcome(*old(self), *final(self), msg, actions@),
    {
        let mut actions: Vec<LoopAction> = Vec::new();
        if msg.id != SERVER_EVENT_ID {
            match self.sorter.resolve(msg) {
                SortedReply::Resolved { waker, reply } => {
                    actions.push(LoopAction::Reply { waker, result: Ok(reply) });
                },
                SortedReply::Unmatched(reply) => {
                    actions.push(
                        LoopAction::Emit(
                            ButtplugClientEvent::Error(
                                ButtplugError::ButtplugMessageError(
                                    ButtplugMessageError::UnmatchedReply(reply.id),
                                ),
                            ),
                        ),
                    );
                },
            }
            assert(actions@ =~= seq![actions@[0]]);
            return actions;
        }
        match msg.response {
            ServerResponse::ScanningFinished => {
                actions.push(LoopAction::Emit(ButtplugClientEvent::ScanningFinished));
            },
            ServerResponse::DeviceAdded { device } => {
                let handle = ButtplugClientDevice::new(device);
                let _ = registry_insert(&mut self.device_map, handle.index, handle.clone());
                actions.push(LoopAction::Emit(ButtplugClientEvent::DeviceAdded(handle)));
            },
            ServerResponse::DeviceRemoved { device_index } => {
                match registry_remove(&mut self.device_map, device_index) {
                    Some(handle) => {
                        actions.push(
                            LoopAction::Emit(ButtplugClientEvent::DeviceRemoved(handle.invalidate())),
                        );
                    },
                    None => {
                        assert(self.devices() =~= old(self).devices());
                    },
                }
            },
            ServerResponse::Error { code, message } => {
                actions.push(
                    LoopAction::Emit(ButtplugClientEvent::Error(error_from_message(code, message))),
                );
            },
            _ => {
                actions.push(
                    LoopAction::Emit(
                        ButtplugClientEvent::Error(
                            ButtplugError::ButtplugMessageError(
                                ButtplugMessageError::UnexpectedMessageType,
                            ),
                        ),
                    ),
                );
            },
        }
        assert(actions@ =~= unsolicited_actions(old(self).devices(), msg.response));
        actions
    }

    /// One step of the loop when the connector has closed: `ServerDisconnect`
    /// is emitted, every pending request fails, the registry is emptied and
    /// the loop ends.
    pub fn handle_connector_closed(&mut self) -> (actions: Vec<LoopAction>)
        requires
            old(self).wf(),
            old(self).running(),
        ensures
            final(self).wf(),
            connector_closed_outcome(*old(self), *final(self), actions@),
    {
        let mut actions: Vec<LoopAction> = Vec::new();
        actions.push(LoopAction::Emit(ButtplugClientEvent::ServerDisconnect));
        assert(actions@ =~= seq![LoopAction::Emit(ButtplugClientEvent::ServerDisconnect)]);
        self.fail_pending(&mut actions);
        registry_clear(&mut self.device_map);
        self.running = false;
        actions
    }
}

/// What `handle_server_message` does to a running loop.
pub open spec fn server_message_outcome(
    before: ButtplugClientEventLoop,
    after: ButtplugClientEventLoop,
    msg: ButtplugCurrentSpecServerMessage,
    actions: Seq<LoopAction>,
) -> bool {
    &&& after.running()
    &&& after.sorter().next_id() == before.sorter().next_id()
    &&& msg.id != 0 ==> after.sorter().pending() == pending_after_reply(
        before.sorter().pending(),
        msg.id,
    )
    &&& msg.id != 0 && before.sorter().pending().contains_key(msg.id) ==> {
        &&& actions == seq![
            (LoopAction::Reply { waker: before.sorter().pending()[msg.id], result: Ok(msg) }),
        ]
        &&& after.sorter().entries() == before.sorter().entries().remove(
            index_of(before.sorter().entries(), msg.id),
        )
        &&& after.devices() == before.devices()
    }
    &&& msg.id != 0 && !before.sorter().pending().contains_key(msg.id) ==> {
        &&& actions == seq![
            LoopAction::Emit(
                ButtplugClientEvent::Error(
                    ButtplugError::ButtplugMessageError(
                        ButtplugMessageError::UnmatchedReply(msg.id),
                    ),
                ),
            ),
        ]
        &&& after.sorter() == before.sorter()
        &&& after.devices() == before.devices()
    }
    &&& msg.id == 0 ==> {
        &&& actions == unsolicited_actions(before.devices(), msg.response)
        &&& after.devices() == devices_after_unsolicited(before.devices(), msg.response)
        &&& after.sorter() == before.sorter()
    }
}

/// What `handle_connector_closed` does to a running loop.
pub open spec fn connector_closed_outcome(
    before: ButtplugClientEventLoop,
    after: ButtplugClientEventLoop,
    actions: Seq<LoopAction>,
) -> bool {
    &&& !after.running()
    &&& after.devices() == no_devices()
    &&& after.sorter().next_id() == before.sorter().next_id()
    &&& after.sorter().pending() == Map::<u32, u64>::empty()
    &&& after.sorter().entries() == Seq::<PendingRequest>::empty()
    &&& actions == seq![LoopAction::Emit(ButtplugClientEvent::ServerDisconnect)] + failure_replies(
        wakers_of(before.sorter().entries()),
    )
}

/// When a connection ends, no request is left waiting: for every pending
/// request, the failures that are handed out hold one for its slot, and it
/// is the failure of a closed channel.
pub proof fn law_no_orphan_requests(entries: Seq<PendingRequest>, id: u32)
    requires
        distinct_ids(entries),
        pending_map(entries).contains_key(id),
    ensures
        failure_replies(wakers_of(entries)).contains(
            (LoopAction::Reply { waker: pending_map(entries)[id], result: Err(channel_closed()) }),
        ),
        failure_replies(wakers_of(entries)).len() == entries.len(),
{
    let i = index_of(entries, id);
    lemma_lookup(entries, i);
    let replies = failure_replies(wakers_of(entries));
    assert(replies[i] == (LoopAction::Reply {
        waker: pending_map(entries)[id],
        result: Err(channel_closed()),
    }));
}

/// The registry after a run of messages that the server sent unasked, first
/// to last.
pub open spec fn devices_after_messages(
    devices: Map<u32, ButtplugClientDevice>,
    responses: Seq<ServerResponse>,
) -> Map<u32, ButtplugClientDevice>
    decreases responses.len(),
{
    if responses.len() == 0 {
        devices
    } else {
        devices_after_unsolicited(
            devices_after_messages(devices, responses.drop_last()),
            responses.last(),
        )
    }
}

/// The message announces the device with the index.
pub open spec fn adds(response: ServerResponse, index: u32) -> bool {
    response matches ServerResponse::DeviceAdded { device } && device.device_index == index
}

/// The message takes the device with the index away.
pub open spec fn removes(response: ServerResponse, index: u32) -> bool {
    response matches ServerResponse::DeviceRemoved { device_index } && device_index == index
}

/// No message after position `from` takes the device away.
pub open spec fn not_removed_after(responses: Seq<ServerResponse>, from: int, index: u32) -> bool {
    forall|j: int| from < j < responses.len() ==> !removes(#[trigger] responses[j], index)
}

/// The device was announced by a message and not taken away since, or it
/// was there at the start and never taken away.
pub open spec fn present_after(present: bool, responses: Seq<ServerResponse>, index: u32) -> bool {
    ||| exists|i: int|
        0 <= i < responses.len() && adds(#[trigger] responses[i], index) && not_removed_after(
            responses,
            i,
            index,
        )
    ||| present && not_removed_after(responses, -1, index)
}

/// The registry holds exactly the devices that were announced and not taken
/// away since: after any run of messages of the server, a device index is in
/// the registry if and only if a `DeviceAdded` named it with no
/// `DeviceRemoved` for it afterwards, or it was there before the run and no
/// `DeviceRemoved` named it.
pub proof fn law_registry_consistency(
    devices: Map<u32, ButtplugClientDevice>,
    responses: Seq<ServerResponse>,
    index: u32,
)
    ensures
        devices_after_messages(devices, responses).contains_key(index) <==> present_after(
            devices.contains_key(index),
            responses,
            index,
        ),
    decreases responses.len(),
{
    let present = devices.contains_key(index);
    if responses.len() > 0 {
        let rest = responses.drop_last();
        let last = responses.last();
        let n = responses.len() as int;
        law_registry_consistency(devices, rest, index);
        assert(responses[n - 1] == last);
        if removes(last, index) {
            assert(!not_removed_after(responses, -1, index));
            assert forall|i: int| 0 <= i < n && adds(#[trigger] responses[i], index) implies !not_removed_after(
                responses,
                i,
                index,
            ) by {
                assert(i < n - 1);
            }
        } else if adds(last, index) {
            assert(not_removed_after(responses, n - 1, index));
        } else {
            assert(devices_after_messages(devices, responses).contains_key(index)
                == devices_after_messages(devices, rest).contains_key(index));
            assert forall|i: int| -1 <= i < n - 1 implies (not_removed_after(rest, i, index)
                <==> not_removed_after(responses, i, index)) by {
                if not_removed_after(rest, i, index) {
                    assert forall|j: int| i < j < n implies !removes(
                        #[trigger] responses[j],
                        index,
                    ) by {
                        if j < n - 1 {
                            assert(rest[j] == responses[j]);
                        }
                    }
                }
                if not_removed_after(responses, i, index) {
                    assert forall|j: int| i < j < n - 1 implies !removes(
                        #[trigger] rest[j],
                        index,
                    ) by {
                        assert(rest[j] == responses[j]);
                    }
                }
            }
            if present_after(present, rest, index) {
                if present && not_removed_after(rest, -1, index) {
                    assert(not_removed_after(responses, -1, index));
                } else {
                    let i = choose|i: int|
                        0 <= i < rest.len() && adds(#[trigger] rest[i], index)
                            && not_removed_after(rest, i, index);
                    assert(responses[i] == rest[i]);
                    assert(not_removed_after(responses, i, index));
                }
            }
            if present_after(present, responses, index) {
                if present && not_removed_after(responses, -1, index) {
                    assert(not_removed_after(rest, -1, index));
                } else {
                    let i = choose|i: int|
                        0 <= i < n && adds(#[trigger] responses[i], index) && not_removed_after(
                            responses,
                            i,
                            index,
                        );
                    assert(i < n - 1);
                    assert(rest[i] == responses[i]);
                    assert(not_removed_after(rest, i, index));
                }
            }
        }
    }
}


/// After a list of devices has been entered, the registry holds the
/// devices that it held before and those of the list, and no others; a
/// listed device stands under its index with the handle of its last mention.
pub proof fn law_device_list_entries(
    devices: Map<u32, ButtplugClientDevice>,
    list: Seq<DeviceMessageInfo>,
    index: u32,
)
    ensures
        devices_after_list(devices, list).contains_key(index) <==> devices.contains_key(index) || (
        exists|i: int| 0 <= i < list.len() && (#[trigger] list[i]).device_index == index),
        registry_wf(devices) ==> registry_wf(devices_after_list(devices, list)),
    decreases list.len(),
{
    if list.len() > 0 {
        let rest = list.drop_last();
        law_device_list_entries(devices, rest, index);
        assert(list[list.len() - 1] == list.last());
        if exists|i: int| 0 <= i < rest.len() && (#[trigger] rest[i]).device_index == index {
            let i = choose|i: int| 0 <= i < rest.len() && (#[trigger] rest[i]).device_index == index;
            assert(list[i].device_index == index);
        }
        if exists|i: int| 0 <= i < list.len() && (#[trigger] list[i]).device_index == index {
            let i = choose|i: int| 0 <= i < list.len() && (#[trigger] list[i]).device_index == index;
            if i < rest.len() {
                assert(rest[i].device_index == index);
            }
        }
        if registry_wf(devices) {
            assert forall|k: u32| #[trigger]
                devices_after_list(devices, list).contains_key(k) implies devices_after_list(
                devices,
                list,
            )[k].index == k && devices_after_list(devices, list)[k].connected by {
                law_device_list_entries(devices, rest, k);
                if k != list.last().device_index {
                    assert(devices_after_list(devices, rest).contains_key(k));
                }
            }
        }
    }
}

} // verus!
