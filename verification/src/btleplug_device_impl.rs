//! The Bluetooth LE device adaptor: the two maps between the endpoints of a
//! protocol and the characteristics of a peripheral, the commands that go
//! through them, and the events of the device.
//!
//! A characteristic is known by its UUID, held as the 128-bit number that the
//! UUID stands for. A peripheral is known by its 48-bit address, held as a
//! number too.

use vstd::prelude::*;
use std::collections::HashMap;
use crate::errors::ButtplugDeviceError;
use crate::errors::ButtplugError;
use crate::endpoint::Endpoint;

verus! {

/// A characteristic that was discovered on a peripheral.
#[derive(Clone, Copy, Debug, PartialEq, Eq, Structural)]
pub struct Characteristic {
    pub uuid: u128,
}

/// One line of a protocol definition: an endpoint and the UUID of the
/// characteristic that serves it.
#[derive(Clone, Copy, Debug, PartialEq, Eq, Structural)]
pub struct EndpointEntry {
    pub endpoint: Endpoint,
    pub uuid: u128,
}

/// Whether the peripheral has a characteristic with the UUID.
pub open spec fn discovered(characteristics: Seq<Characteristic>, uuid: u128) -> bool {
    exists|i: int| 0 <= i < characteristics.len() && (#[trigger] characteristics[i]).uuid == uuid
}

/// The lines of the protocol definition whose characteristic the peripheral
/// has, in the order of the definition.
pub open spec fn matched_entries(
    protocol: Seq<EndpointEntry>,
    characteristics: Seq<Characteristic>,
) -> Seq<EndpointEntry>
    decreases protocol.len(),
{
    if protocol.len() == 0 {
        Seq::empty()
    } else if discovered(characteristics, protocol.last().uuid) {
        matched_entries(protocol.drop_last(), characteristics).push(protocol.last())
    } else {
        matched_entries(protocol.drop_last(), characteristics)
    }
}

/// The characteristic that serves an endpoint: that of the last line that
/// names the endpoint, if there is one.
pub open spec fn characteristic_of(table: Seq<EndpointEntry>, endpoint: Endpoint) -> Option<
    Characteristic,
>
    decreases table.len(),
{
    if table.len() == 0 {
        None
    } else if table.last().endpoint == endpoint {
        Some(Characteristic { uuid: table.last().uuid })
    } else {
        characteristic_of(table.drop_last(), endpoint)
    }
}

/// The endpoint that a UUID stands for: that of the last line that names the
/// UUID, if there is one.
pub open spec fn endpoint_of(table: Seq<EndpointEntry>, uuid: u128) -> Option<Endpoint>
    decreases table.len(),
{
    if table.len() == 0 {
        None
    } else if table.last().uuid == uuid {
        Some(table.last().endpoint)
    } else {
        endpoint_of(table.drop_last(), uuid)
    }
}

/// The map from endpoint to characteristic that a table of lines gives: a
/// later line for an endpoint takes the place of an earlier one.
pub open spec fn endpoint_map_of(table: Seq<EndpointEntry>) -> Map<Endpoint, Characteristic> {
    Map::new(
        |endpoint: Endpoint| characteristic_of(table, endpoint) is Some,
        |endpoint: Endpoint| characteristic_of(table, endpoint)->Some_0,
    )
}

/// The map from UUID to endpoint that a table of lines gives: a later line
/// for a UUID takes the place of an earlier one.
pub open spec fn uuid_map_of(table: Seq<EndpointEntry>) -> Map<u128, Endpoint> {
    Map::new(
        |uuid: u128| endpoint_of(table, uuid) is Some,
        |uuid: u128| endpoint_of(table, uuid)->Some_0,
    )
}

/// The number under which an endpoint is kept in the map of a device.
pub open spec fn code_of(endpoint: Endpoint) -> u8 {
    match endpoint {
        Endpoint::Command => 0,
        Endpoint::Firmware => 1,
        Endpoint::Rx => 2,
        Endpoint::RxAccel => 3,
        Endpoint::RxBLEBattery => 4,
        Endpoint::RxPressure => 5,
        Endpoint::RxTouch => 6,
        Endpoint::Tx => 7,
        Endpoint::TxMode => 8,
        Endpoint::TxShock => 9,
        Endpoint::TxVibrate => 10,
        Endpoint::TxVendorControl => 11,
        Endpoint::Whitelist => 12,
    }
}

/// A map that is keyed by the numbers of the endpoints, read as a map from
/// the endpoints themselves.
pub open spec fn by_endpoint(coded: Map<u8, Characteristic>) -> Map<Endpoint, Characteristic> {
    Map::new(
        |endpoint: Endpoint| coded.contains_key(code_of(endpoint)),
        |endpoint: Endpoint| coded[code_of(endpoint)],
    )
}

/// Every endpoint, in the order of their declaration.
pub open spec fn all_endpoints() -> Seq<Endpoint> {
    seq![
        Endpoint::Command,
        Endpoint::Firmware,
        Endpoint::Rx,
        Endpoint::RxAccel,
        Endpoint::RxBLEBattery,
        Endpoint::RxPressure,
        Endpoint::RxTouch,
        Endpoint::Tx,
        Endpoint::TxMode,
        Endpoint::TxShock,
        Endpoint::TxVibrate,
        Endpoint::TxVendorControl,
        Endpoint::Whitelist,
    ]
}

/// Those of the candidates that have a characteristic, in their order.
pub open spec fn mapped_among(
    endpoints: Map<Endpoint, Characteristic>,
    candidates: Seq<Endpoint>,
) -> Seq<Endpoint>
    decreases candidates.len(),
{
    if candidates.len() == 0 {
        Seq::empty()
    } else if endpoints.contains_key(candidates.last()) {
        mapped_among(endpoints, candidates.drop_last()).push(candidates.last())
    } else {
        mapped_among(endpoints, candidates.drop_last())
    }
}

/// Among candidates that are all different, those with a characteristic are
/// all different too, and they are exactly the candidates that the map holds.
pub proof fn lemma_mapped_among(endpoints: Map<Endpoint, Characteristic>, candidates: Seq<Endpoint>)
    requires
        candidates.no_duplicates(),
    ensures
        mapped_among(endpoints, candidates).no_duplicates(),
        forall|endpoint: Endpoint| #[trigger]
            mapped_among(endpoints, candidates).contains(endpoint) <==> candidates.contains(
                endpoint,
            ) && endpoints.contains_key(endpoint),
    decreases candidates.len(),
{
    if candidates.len() > 0 {
        let rest = candidates.drop_last();
        let last = candidates.last();
        let before = mapped_among(endpoints, rest);
        let all = mapped_among(endpoints, candidates);
        assert(rest.no_duplicates()) by {
            assert forall|i: int, j: int|
                0 <= i < rest.len() && 0 <= j < rest.len() && i != j implies rest[i] != rest[j] by {
                assert(rest[i] == candidates[i] && rest[j] == candidates[j]);
            }
        }
        lemma_mapped_among(endpoints, rest);
        assert(!rest.contains(last)) by {
            if rest.contains(last) {
                let i = choose|i: int| 0 <= i < rest.len() && rest[i] == last;
                assert(candidates[i] == candidates[candidates.len() - 1]);
            }
        }
        assert forall|endpoint: Endpoint| #[trigger]
            all.contains(endpoint) <==> candidates.contains(endpoint) && endpoints.contains_key(
                endpoint,
            ) by {
            assert(before.contains(endpoint) <==> rest.contains(endpoint)
                && endpoints.contains_key(endpoint));
            assert(candidates[candidates.len() - 1] == last);
            if rest.contains(endpoint) {
                let i = choose|i: int| 0 <= i < rest.len() && rest[i] == endpoint;
                assert(candidates[i] == endpoint);
            }
            if candidates.contains(endpoint) && endpoint != last {
                let i = choose|i: int| 0 <= i < candidates.len() && candidates[i] == endpoint;
                assert(rest[i] == endpoint);
            }
            if endpoints.contains_key(last) {
                assert(all[before.len() as int] == last);
                if before.contains(endpoint) {
                    let i = choose|i: int| 0 <= i < before.len() && before[i] == endpoint;
                    assert(all[i] == endpoint);
                }
                if all.contains(endpoint) && endpoint != last {
                    let i = choose|i: int| 0 <= i < all.len() && all[i] == endpoint;
                    assert(before[i] == endpoint);
                }
            }
        }
        if endpoints.contains_key(last) {
            assert forall|i: int, j: int|
                0 <= i < all.len() && 0 <= j < all.len() && i != j implies all[i] != all[j] by {
                if i < before.len() {
                    assert(before[i] == all[i]);
                    assert(before.contains(before[i]));
                }
                if j < before.len() {
                    assert(before[j] == all[j]);
                    assert(before.contains(before[j]));
                }
            }
        }
    }
}

/// The list of the endpoints of a device names each endpoint at most once,
/// and it names exactly the endpoints that have a characteristic.
pub proof fn law_mapped_endpoints(endpoints: Map<Endpoint, Characteristic>)
    ensures
        mapped_among(endpoints, all_endpoints()).no_duplicates(),
        forall|endpoint: Endpoint| #[trigger]
            mapped_among(endpoints, all_endpoints()).contains(endpoint)
                <==> endpoints.contains_key(endpoint),
{
    let all = all_endpoints();
    assert(all.len() == 13);
    assert(all.no_duplicates());
    lemma_mapped_among(endpoints, all);
    assert forall|endpoint: Endpoint| all.contains(endpoint) by {
        assert(all[code_of(endpoint) as int] == endpoint);
    }
}

/// An endpoint has a characteristic exactly when some line of the table
/// names it.
pub proof fn lemma_characteristic_of(table: Seq<EndpointEntry>, endpoint: Endpoint)
    ensures
        characteristic_of(table, endpoint) is Some <==> exists|i: int|
            0 <= i < table.len() && (#[trigger] table[i]).endpoint == endpoint,
    decreases table.len(),
{
    if table.len() > 0 {
        let rest = table.drop_last();
        lemma_characteristic_of(rest, endpoint);
        if table.last().endpoint == endpoint {
            assert(table[table.len() - 1].endpoint == endpoint);
        } else if characteristic_of(rest, endpoint) is Some {
            let i = choose|i: int| 0 <= i < rest.len() && (#[trigger] rest[i]).endpoint == endpoint;
            assert(table[i].endpoint == endpoint);
        } else if exists|i: int| 0 <= i < table.len() && (#[trigger] table[i]).endpoint == endpoint {
            let i = choose|i: int|
                0 <= i < table.len() && (#[trigger] table[i]).endpoint == endpoint;
            assert(rest[i].endpoint == endpoint);
        }
    }
}

/// The endpoint table is the intersection of what the protocol defines and
/// what the peripheral has: every line of the table is a line of the
/// definition whose characteristic was discovered, and every such line of
/// the definition is in the table.
pub proof fn law_table_is_intersection(
    protocol: Seq<EndpointEntry>,
    characteristics: Seq<Characteristic>,
)
    ensures
        forall|i: int|
            0 <= i < matched_entries(protocol, characteristics).len() ==> {
                &&& protocol.contains(#[trigger] matched_entries(protocol, characteristics)[i])
                &&& discovered(characteristics, matched_entries(protocol, characteristics)[i].uuid)
            },
        forall|j: int|
            0 <= j < protocol.len() && discovered(characteristics, (#[trigger] protocol[j]).uuid)
                ==> matched_entries(protocol, characteristics).contains(protocol[j]),
    decreases protocol.len(),
{
    if protocol.len() > 0 {
        let rest = protocol.drop_last();
        law_table_is_intersection(rest, characteristics);
        let table = matched_entries(protocol, characteristics);
        let before = matched_entries(rest, characteristics);
        assert forall|i: int| 0 <= i < table.len() implies protocol.contains(#[trigger] table[i])
            && discovered(characteristics, table[i].uuid) by {
            if i < before.len() {
                assert(table[i] == before[i]);
                let j = choose|j: int| 0 <= j < rest.len() && rest[j] == before[i];
                assert(protocol[j] == table[i]);
            } else {
                assert(protocol[protocol.len() - 1] == table[i]);
            }
        }
        assert forall|j: int|
            0 <= j < protocol.len() && discovered(
                characteristics,
                (#[trigger] protocol[j]).uuid,
            ) implies table.contains(protocol[j]) by {
            if j < rest.len() {
                assert(rest[j] == protocol[j]);
                let i = choose|i: int| 0 <= i < before.len() && before[i] == rest[j];
                assert(table[i] == protocol[j]);
            } else {
                assert(table[table.len() - 1] == protocol[j]);
            }
        }
    }
}

/// How a write reaches the peripheral.
#[derive(Clone, Copy, Debug, PartialEq, Eq, Structural)]
pub enum WriteType {
    WithResponse,
    WithoutResponse,
}

/// A request to write bytes to an endpoint.
#[derive(Clone, Debug, PartialEq, Eq)]
pub struct DeviceWriteCmd {
    pub endpoint: Endpoint,
    pub data: Vec<u8>,
    pub write_with_response: bool,
}

/// A request to read an endpoint.
#[derive(Clone, Copy, Debug, PartialEq, Eq, Structural)]
pub struct DeviceReadCmd {
    pub endpoint: Endpoint,
}

/// A request for the notifications of an endpoint.
#[derive(Clone, Copy, Debug, PartialEq, Eq, Structural)]
pub struct DeviceSubscribeCmd {
    pub endpoint: Endpoint,
}

/// A request to end the notifications of an endpoint.
#[derive(Clone, Copy, Debug, PartialEq, Eq, Structural)]
pub struct DeviceUnsubscribeCmd {
    pub endpoint: Endpoint,
}

/// What is to be done on the peripheral for a command.
#[derive(Clone, Debug, PartialEq, Eq)]
pub enum PeripheralOperation {
    Write { characteristic: Characteristic, data: Vec<u8>, write_type: WriteType },
    Read { characteristic: Characteristic },
    Subscribe { characteristic: Characteristic },
    Unsubscribe { characteristic: Characteristic },
}

/// Bytes that were read from an endpoint.
#[derive(Clone, Debug, PartialEq, Eq)]
pub struct RawReading {
    pub device_index: u32,
    pub endpoint: Endpoint,
    pub data: Vec<u8>,
}

/// What the adapter reports of the peripherals around it.
#[derive(Clone, Copy, Debug, PartialEq, Eq, Structural)]
pub enum CentralEvent {
    /// The peripheral with the address has disconnected.
    DeviceDisconnected(u64),
    /// Anything else.
    Other,
}

/// What a device tells those who listen to it.
#[derive(Clone, Debug, PartialEq, Eq)]
pub enum ButtplugDeviceEvent {
    /// The peripheral with the address sent bytes on an endpoint.
    Notification(u64, Endpoint, Vec<u8>),
    /// The peripheral with the address is gone.
    Removed(u64),
}

/// What is to be done about a notification of the peripheral.
#[derive(Clone, Debug, PartialEq, Eq)]
pub enum NotificationOutcome {
    /// Publish the event.
    Emit(ButtplugDeviceEvent),
    /// The UUID stands for no endpoint, for the first time: report it and
    /// drop the notification.
    ReportUnknown(u128),
    /// The UUID stands for no endpoint, once more: drop the notification.
    Ignore,
}

/// Which devices a creator is for.
#[derive(Clone, Debug, PartialEq, Eq)]
pub enum DeviceSpecifier {
    /// The Bluetooth LE devices that advertise the name.
    BluetoothLE(String),
}

/// The error of a command against an endpoint that has no characteristic.
pub open spec fn invalid_endpoint(endpoint: Endpoint) -> ButtplugError {
    ButtplugError::ButtplugDeviceError(ButtplugDeviceError::InvalidEndpoint(endpoint))
}

/// The error of a command against a device that has disconnected.
pub open spec fn not_connected() -> ButtplugError {
    ButtplugError::ButtplugDeviceError(ButtplugDeviceError::DeviceNotConnected)
}

/// Decides where a command goes: to the characteristic of its endpoint, or
/// nowhere. An endpoint without a characteristic is refused first, whatever
/// the state of the device; then a device that has disconnected.
pub open spec fn route(
    endpoints: Map<Endpoint, Characteristic>,
    connected: bool,
    endpoint: Endpoint,
) -> Result<Characteristic, ButtplugError> {
    if !endpoints.contains_key(endpoint) {
        Err(invalid_endpoint(endpoint))
    } else if connected {
        Ok(endpoints[endpoint])
    } else {
        Err(not_connected())
    }
}

/// The write type that a write command asks for.
pub open spec fn write_type_of(write_with_response: bool) -> WriteType {
    if write_with_response {
        WriteType::WithResponse
    } else {
        WriteType::WithoutResponse
    }
}

/// How opening and exploring a peripheral went.
#[derive(Clone, Debug, PartialEq, Eq)]
pub enum PeripheralReport {
    /// The peripheral could not be opened, with the detail it gave.
    ConnectFailed(String),
    /// The characteristics could not be discovered, with the detail given.
    DiscoveryFailed(String),
    /// The peripheral is open and has these characteristics.
    Discovered(Vec<Characteristic>),
}

/// Creates the adaptor of a peripheral once its characteristics are known.
#[derive(Debug, PartialEq, Eq)]
pub struct BtlePlugDeviceImplCreator {
    pub name: String,
    pub address: u64,
}

/// The adaptor of one connected peripheral.
#[derive(Debug, PartialEq, Eq)]
pub struct BtlePlugDeviceImpl {
    address: u64,
    connected: bool,
    /// From the number of an endpoint to its characteristic.
    endpoints: HashMap<u8, Characteristic>,
    /// From the UUID of a characteristic to its endpoint.
    uuid_map: HashMap<u128, Endpoint>,
    error_notification: bool,
}

/// The number under which an endpoint is kept in the map of a device.
fn endpoint_code(endpoint: Endpoint) -> (res: u8)
    ensures
        res == code_of(endpoint),
{
    match endpoint {
        Endpoint::Command => 0,
        Endpoint::Firmware => 1,
        Endpoint::Rx => 2,
        Endpoint::RxAccel => 3,
        Endpoint::RxBLEBattery => 4,
        Endpoint::RxPressure => 5,
        Endpoint::RxTouch => 6,
        Endpoint::Tx => 7,
        Endpoint::TxMode => 8,
        Endpoint::TxShock => 9,
        Endpoint::TxVibrate => 10,
        Endpoint::TxVendorControl => 11,
        Endpoint::Whitelist => 12,
    }
}

/// Tells whether the peripheral has a characteristic with the UUID.
pub fn has_characteristic(characteristics: &Vec<Characteristic>, uuid: u128) -> (res: bool)
    ensures
        res == discovered(characteristics@, uuid),
{
    let mut i: usize = 0;
    while i < characteristics.len()
        invariant
            i <= characteristics.len(),
            forall|j: int| 0 <= j < i ==> (#[trigger] characteristics@[j]).uuid != uuid,
        decreases characteristics.len() - i,
    {
        if characteristics[i].uuid == uuid {
            return true;
        }
        i = i + 1;
    }
    false
}

impl BtlePlugDeviceImplCreator {
    pub fn new(name: &str, address: u64) -> (res: Self)
        ensures
            res.name@ == name@,
            res.address == address,
    {
        BtlePlugDeviceImplCreator { name: name.to_owned(), address }
    }

    /// The devices that this creator is for: those with its name.
    pub fn get_specifier(&self) -> (res: DeviceSpecifier)
        ensures
            res == DeviceSpecifier::BluetoothLE(self.name),
    {
        DeviceSpecifier::BluetoothLE(self.name.clone())
    }

    /// Builds the adaptor from the endpoints that the protocol defines and
    /// from what came of opening and exploring the peripheral. A peripheral
    /// that could not be opened or explored gives a device-connection error
    /// with the detail of the step that failed.
    /// Otherwise the two maps of the device are those of the lines of the
    /// definition whose characteristic the peripheral has; where it has none
    /// of them the creation fails.
    pub fn try_create_device_impl(&self, protocol: &Vec<EndpointEntry>, report: PeripheralReport) -> (res:
        Result<BtlePlugDeviceImpl, ButtplugError>)
        ensures
            match report {
                PeripheralReport::ConnectFailed(detail) => res == Err::<
                    BtlePlugDeviceImpl,
                    ButtplugError,
                >(
                    ButtplugError::ButtplugDeviceError(
                        ButtplugDeviceError::DeviceConnectionError(detail),
                    ),
                ),
                PeripheralReport::DiscoveryFailed(detail) => res == Err::<
                    BtlePlugDeviceImpl,
                    ButtplugError,
                >(
                    ButtplugError::ButtplugDeviceError(
                        ButtplugDeviceError::DeviceConnectionError(detail),
                    ),
                ),
                PeripheralReport::Discovered(characteristics) => {
                    &&& matched_entries(protocol@, characteristics@).len() == 0 ==> res == Err::<
                        BtlePlugDeviceImpl,
                        ButtplugError,
                    >(ButtplugError::ButtplugDeviceError(ButtplugDeviceError::NoEndpointsFound))
                    &&& matched_entries(protocol@, characteristics@).len() > 0 ==> {
                        &&& res is Ok
                        &&& res->Ok_0.endpoint_map() == endpoint_map_of(
                            matched_entries(protocol@, characteristics@),
                        )
                        &&& res->Ok_0.uuid_map() == uuid_map_of(
                            matched_entries(protocol@, characteristics@),
                        )
                        &&& res->Ok_0.address() == self.address
                        &&& res->Ok_0.is_connected()
                        &&& !res->Ok_0.reported_unknown()
                    }
                },
            },
    {
        let characteristics = match report {
            PeripheralReport::ConnectFailed(detail) => {
                return Err(
                    ButtplugError::ButtplugDeviceError(
                        ButtplugDeviceError::DeviceConnectionError(detail),
                    ),
                );
            },
            PeripheralReport::DiscoveryFailed(detail) => {
                return Err(
                    ButtplugError::ButtplugDeviceError(
                        ButtplugDeviceError::DeviceConnectionError(detail),
                    ),
                );
            },
            PeripheralReport::Discovered(characteristics) => characteristics,
        };
        let mut endpoints: Vec<EndpointEntry> = Vec::new();
        let mut i: usize = 0;
        assert(protocol@.take(0) =~= Seq::<EndpointEntry>::empty());
        while i < protocol.len()
            invariant
                i <= protocol.len(),
                endpoints@ == matched_entries(protocol@.take(i as int), characteristics@),
            decreases protocol.len() - i,
        {
            proof {
                let next = protocol@.take(i + 1);
                assert(next.drop_last() =~= protocol@.take(i as int));
                assert(next.last() == protocol@[i as int]);
            }
            if has_characteristic(&characteristics, protocol[i].uuid) {
                endpoints.push(protocol[i]);
            }
            i = i + 1;
        }
        assert(protocol@.take(i as int) =~= protocol@);
        if endpoints.len() == 0 {
            return Err(ButtplugError::ButtplugDeviceError(ButtplugDeviceError::NoEndpointsFound));
        }
        Ok(BtlePlugDeviceImpl::new(self.address, endpoints))
    }
}

impl BtlePlugDeviceImpl {
    /// The adaptor of a peripheral that has just been connected, with the
    /// two maps that the lines give, first to last.
    pub fn new(address: u64, lines: Vec<EndpointEntry>) -> (res: Self)
        ensures
            res.endpoint_map() == endpoint_map_of(lines@),
            res.uuid_map() == uuid_map_of(lines@),
            res.address() == address,
            res.is_connected(),
            !res.reported_unknown(),
    {
        let mut endpoints: HashMap<u8, Characteristic> = HashMap::new();
        let mut uuid_map: HashMap<u128, Endpoint> = HashMap::new();
        let mut i: usize = 0;
        assert(by_endpoint(endpoints@) =~= endpoint_map_of(lines@.take(0)));
        assert(uuid_map@ =~= uuid_map_of(lines@.take(0)));
        while i < lines.len()
            invariant
                i <= lines.len(),
                by_endpoint(endpoints@) == endpoint_map_of(lines@.take(i as int)),
                uuid_map@ == uuid_map_of(lines@.take(i as int)),
            decreases lines.len() - i,
        {
            let line = lines[i];
            let ghost coded = endpoints@;
            endpoints.insert(endpoint_code(line.endpoint), Characteristic { uuid: line.uuid });
            uuid_map.insert(line.uuid, line.endpoint);
            proof {
                let part = lines@.take(i + 1);
                assert(part.drop_last() =~= lines@.take(i as int));
                assert(part.last() == line);
                assert(by_endpoint(endpoints@) =~= endpoint_map_of(part)) by {
                    assert forall|endpoint: Endpoint|
                        by_endpoint(endpoints@).contains_key(endpoint) <==> #[trigger] endpoint_map_of(
                            part,
                        ).contains_key(endpoint) by {
                        assert(by_endpoint(coded).contains_key(endpoint) <==> endpoint_map_of(
                            part.drop_last(),
                        ).contains_key(endpoint));
                    }
                    assert forall|endpoint: Endpoint| #[trigger]
                        by_endpoint(endpoints@).contains_key(endpoint) implies by_endpoint(
                        endpoints@,
                    )[endpoint] == endpoint_map_of(part)[endpoint] by {
                        if endpoint != line.endpoint {
                            assert(by_endpoint(coded).contains_key(endpoint));
                            assert(by_endpoint(coded)[endpoint] == endpoint_map_of(
                                part.drop_last(),
                            )[endpoint]);
                        }
                    }
                }
                assert(uuid_map@ =~= uuid_map_of(part)) by {
                    assert forall|uuid: u128|
                        uuid_map@.contains_key(uuid) <==> #[trigger] uuid_map_of(part).contains_key(
                            uuid,
                        ) by {
                        assert(uuid_map_of(part.drop_last()).contains_key(uuid) <==> endpoint_of(
                            part.drop_last(),
                            uuid,
                        ) is Some);
                    }
                    assert forall|uuid: u128| #[trigger]
                        uuid_map@.contains_key(uuid) implies uuid_map@[uuid] == uuid_map_of(
                        part,
                    )[uuid] by {
                        if uuid != line.uuid {
                            assert(uuid_map_of(part.drop_last()).contains_key(uuid));
                        }
                    }
                }
            }
            i = i + 1;
        }
        assert(lines@.take(i as int) =~= lines@);
        BtlePlugDeviceImpl { address, connected: true, endpoints, uuid_map, error_notification: false }
    }

    /// The map from each endpoint that has a characteristic to that
    /// characteristic.
    pub closed spec fn endpoint_map(&self) -> Map<Endpoint, Characteristic> {
        by_endpoint(self.endpoints@)
    }

    /// The map from the UUID of each such characteristic to its endpoint.
    pub closed spec fn uuid_map(&self) -> Map<u128, Endpoint> {
        self.uuid_map@
    }

    /// The address of the peripheral.
    pub closed spec fn address(&self) -> u64 {
        self.address
    }

    /// Whether the peripheral has not disconnected.
    pub closed spec fn is_connected(&self) -> bool {
        self.connected
    }

    /// Whether a notification with an unknown UUID has been reported.
    pub closed spec fn reported_unknown(&self) -> bool {
        self.error_notification
    }

    /// Tells whether the peripheral has not disconnected.
    pub fn connected(&self) -> (res: bool)
        ensures
            res == self.is_connected(),
    {
        self.connected
    }

    /// The endpoints that have a characteristic, each once, in the order of
    /// their declaration.
    pub fn endpoints(&self) -> (res: Vec<Endpoint>)
        ensures
            res@ == mapped_among(self.endpoint_map(), all_endpoints()),
    {
        let candidates: Vec<Endpoint> = vec![
            Endpoint::Command,
            Endpoint::Firmware,
            Endpoint::Rx,
            Endpoint::RxAccel,
            Endpoint::RxBLEBattery,
            Endpoint::RxPressure,
            Endpoint::RxTouch,
            Endpoint::Tx,
            Endpoint::TxMode,
            Endpoint::TxShock,
            Endpoint::TxVibrate,
            Endpoint::TxVendorControl,
            Endpoint::Whitelist,
        ];
        assert(candidates@ =~= all_endpoints());
        let mut res: Vec<Endpoint> = Vec::new();
        let mut i: usize = 0;
        assert(candidates@.take(0) =~= Seq::<Endpoint>::empty());
        while i < candidates.len()
            invariant
                i <= candidates.len(),
                res@ == mapped_among(self.endpoint_map(), candidates@.take(i as int)),
            decreases candidates.len() - i,
        {
            proof {
                let part = candidates@.take(i + 1);
                assert(part.drop_last() =~= candidates@.take(i as int));
                assert(part.last() == candidates@[i as int]);
            }
            let code = endpoint_code(candidates[i]);
            if self.endpoints.contains_key(&code) {
                res.push(candidates[i]);
            }
            i = i + 1;
        }
        assert(candidates@.take(i as int) =~= candidates@);
        res
    }

    /// Looks up the characteristic of an endpoint.
    fn find_characteristic(&self, endpoint: Endpoint) -> (res: Option<Characteristic>)
        ensures
            res == (if self.endpoint_map().contains_key(endpoint) {
                Some(self.endpoint_map()[endpoint])
            } else {
                None
            }),
    {
        let code = endpoint_code(endpoint);
        match self.endpoints.get(&code) {
            Some(characteristic) => Some(*characteristic),
            None => None,
        }
    }

    /// Looks up the endpoint of a UUID.
    fn find_endpoint(&self, uuid: u128) -> (res: Option<Endpoint>)
        ensures
            res == (if self.uuid_map().contains_key(uuid) {
                Some(self.uuid_map()[uuid])
            } else {
                None
            }),
    {
        match self.uuid_map.get(&uuid) {
            Some(endpoint) => Some(*endpoint),
            None => None,
        }
    }

    /// Decides where a command for the endpoint goes.
    fn route_command(&self, endpoint: Endpoint) -> (res: Result<Characteristic, ButtplugError>)
        ensures
            res == route(self.endpoint_map(), self.is_connected(), endpoint),
    {
        match self.find_characteristic(endpoint) {
            None => Err(
                ButtplugError::ButtplugDeviceError(ButtplugDeviceError::InvalidEndpoint(endpoint)),
            ),
            Some(characteristic) => if self.connected {
                Ok(characteristic)
            } else {
                Err(ButtplugError::ButtplugDeviceError(ButtplugDeviceError::DeviceNotConnected))
            },
        }
    }

    /// The write that a write command asks for, or the error that refuses
    /// it. Nothing is to be done on the peripheral where it is refused.
    pub fn write_value(&self, msg: DeviceWriteCmd) -> (res: Result<
        PeripheralOperation,
        ButtplugError,
    >)
        ensures
            res == match route(self.endpoint_map(), self.is_connected(), msg.endpoint) {
                Ok(characteristic) => Ok(
                    (PeripheralOperation::Write {
                        characteristic,
                        data: msg.data,
                        write_type: write_type_of(msg.write_with_response),
                    }),
                ),
                Err(err) => Err(err),
            },
    {
        let characteristic = match self.route_command(msg.endpoint) {
            Ok(characteristic) => characteristic,
            Err(err) => {
                return Err(err);
            },
        };
        let write_type = if msg.write_with_response {
            WriteType::WithResponse
        } else {
            WriteType::WithoutResponse
        };
        Ok(PeripheralOperation::Write { characteristic, data: msg.data, write_type })
    }

    /// The read that a read command asks for, or the error that refuses it.
    pub fn read_value(&self, msg: DeviceReadCmd) -> (res: Result<
        PeripheralOperation,
        ButtplugError,
    >)
        ensures
            res == match route(self.endpoint_map(), self.is_connected(), msg.endpoint) {
                Ok(characteristic) => Ok((PeripheralOperation::Read { characteristic })),
                Err(err) => Err(err),
            },
    {
        match self.route_command(msg.endpoint) {
            Ok(characteristic) => Ok(PeripheralOperation::Read { characteristic }),
            Err(err) => Err(err),
        }
    }

    /// The subscription that a subscribe command asks for, or the error that
    /// refuses it.
    pub fn subscribe(&self, msg: DeviceSubscribeCmd) -> (res: Result<
        PeripheralOperation,
        ButtplugError,
    >)
        ensures
            res == match route(self.endpoint_map(), self.is_connected(), msg.endpoint) {
                Ok(characteristic) => Ok((PeripheralOperation::Subscribe { characteristic })),
                Err(err) => Err(err),
            },
    {
        match self.route_command(msg.endpoint) {
            Ok(characteristic) => Ok(PeripheralOperation::Subscribe { characteristic }),
            Err(err) => Err(err),
        }
    }

    /// The end of a subscription that an unsubscribe command asks for, or
    /// the error that refuses it.
    pub fn unsubscribe(&self, msg: DeviceUnsubscribeCmd) -> (res: Result<
        PeripheralOperation,
        ButtplugError,
    >)
        ensures
            res == match route(self.endpoint_map(), self.is_connected(), msg.endpoint) {
                Ok(characteristic) => Ok((PeripheralOperation::Unsubscribe { characteristic })),
                Err(err) => Err(err),
            },
    {
        match self.route_command(msg.endpoint) {
            Ok(characteristic) => Ok(PeripheralOperation::Unsubscribe { characteristic }),
            Err(err) => Err(err),
        }
    }

    /// What a notification of the peripheral leads to. One whose UUID stands
    /// for an endpoint is published under that endpoint. One whose UUID
    /// stands for none is dropped, and reported the first time only.
    pub fn handle_notification(&mut self, uuid: u128, value: Vec<u8>) -> (res: NotificationOutcome)
        ensures
            final(self).endpoint_map() == old(self).endpoint_map(),
            final(self).uuid_map() == old(self).uuid_map(),
            final(self).address() == old(self).address(),
            final(self).is_connected() == old(self).is_connected(),
            old(self).uuid_map().contains_key(uuid) ==> {
                &&& res == NotificationOutcome::Emit(
                    ButtplugDeviceEvent::Notification(
                        old(self).address(),
                        old(self).uuid_map()[uuid],
                        value,
                    ),
                )
                &&& final(self).reported_unknown() == old(self).reported_unknown()
            },
            !old(self).uuid_map().contains_key(uuid) ==> {
                &&& final(self).reported_unknown()
                &&& old(self).reported_unknown() ==> res == NotificationOutcome::Ignore
                &&& !old(self).reported_unknown() ==> res == NotificationOutcome::ReportUnknown(
                    uuid,
                )
            },
    {
        match self.find_endpoint(uuid) {
            Some(endpoint) => NotificationOutcome::Emit(
                ButtplugDeviceEvent::Notification(self.address, endpoint, value),
            ),
            None => {
                if self.error_notification {
                    NotificationOutcome::Ignore
                } else {
                    self.error_notification = true;
                    NotificationOutcome::ReportUnknown(uuid)
                }
            },
        }
    }

    /// What an event of the adapter leads to. When the peripheral of this
    /// device has disconnected, the device is no longer connected and its
    /// removal is published. Any other event changes nothing.
    pub fn handle_adapter_event(&mut self, event: CentralEvent) -> (res: Option<
        ButtplugDeviceEvent,
    >)
        ensures
            final(self).endpoint_map() == old(self).endpoint_map(),
            final(self).uuid_map() == old(self).uuid_map(),
            final(self).address() == old(self).address(),
            final(self).reported_unknown() == old(self).reported_unknown(),
            event == CentralEvent::DeviceDisconnected(old(self).address()) ==> {
                &&& res == Some(ButtplugDeviceEvent::Removed(old(self).address()))
                &&& !final(self).is_connected()
            },
            event != CentralEvent::DeviceDisconnected(old(self).address()) ==> {
                &&& res is None
                &&& final(self).is_connected() == old(self).is_connected()
            },
    {
        match event {
            CentralEvent::DeviceDisconnected(address) => {
                if address == self.address {
                    self.connected = false;
                    Some(ButtplugDeviceEvent::Removed(address))
                } else {
                    None
                }
            },
            CentralEvent::Other => None,
        }
    }
}

/// What a read command returns once the peripheral has answered: the bytes
/// as a reading of the endpoint, or the failure of the peripheral.
pub fn read_reply(endpoint: Endpoint, outcome: Result<Vec<u8>, String>) -> (res: Result<
    RawReading,
    ButtplugError,
>)
    ensures
        res == match outcome {
            Ok(data) => Ok((RawReading { device_index: 0, endpoint, data })),
            Err(detail) => Err(
                ButtplugError::ButtplugDeviceError(
                    ButtplugDeviceError::DeviceSpecificError(detail),
                ),
            ),
        },
{
    match outcome {
        Ok(data) => Ok(RawReading { device_index: 0, endpoint, data }),
        Err(detail) => Err(
            ButtplugError::ButtplugDeviceError(ButtplugDeviceError::DeviceSpecificError(detail)),
        ),
    }
}

/// What a subscribe or unsubscribe command returns once the peripheral has
/// answered: success, or the failure of the peripheral.
pub fn operation_reply(outcome: Result<(), String>) -> (res: Result<(), ButtplugError>)
    ensures
        res == match outcome {
            Ok(_) => Ok(()),
            Err(detail) => Err(
                ButtplugError::ButtplugDeviceError(
                    ButtplugDeviceError::DeviceSpecificError(detail),
                ),
            ),
        },
{
    match outcome {
        Ok(_) => Ok(()),
        Err(detail) => Err(
            ButtplugError::ButtplugDeviceError(ButtplugDeviceError::DeviceSpecificError(detail)),
        ),
    }
}

/// A command against an endpoint that has no characteristic is refused with
/// `InvalidEndpoint`, whether the device is connected or not, and nothing is
/// to be done on the peripheral.
pub proof fn law_endpoint_isolation(table: Seq<EndpointEntry>, connected: bool, endpoint: Endpoint)
    requires
        forall|i: int| 0 <= i < table.len() ==> (#[trigger] table[i]).endpoint != endpoint,
    ensures
        route(endpoint_map_of(table), connected, endpoint) == Err::<Characteristic, ButtplugError>(
            invalid_endpoint(endpoint),
        ),
{
    lemma_characteristic_of(table, endpoint);
}

} // verus!
