//! The device registry: a concurrent hash map from device index to handle.
//!
//! The map is `dashmap::DashMap`. Verus sees nothing inside it: what it holds
//! has a name, and the functions below state what each method of the map does
//! to what it holds. These statements are believed, not proved.

use vstd::prelude::*;
use dashmap::DashMap;
use crate::device::ButtplugClientDevice;

verus! {

/// `dashmap::DashMap`, opaque to the verifier.
#[verifier::external_type_specification]
#[verifier::external_body]
#[verifier::reject_recursive_types(K)]
#[verifier::reject_recursive_types(V)]
#[verifier::reject_recursive_types(S)]
pub struct ExDashMap<K, V, S>(DashMap<K, V, S>);

/// The registry's map: from device index to handle.
pub type DeviceRegistry = DashMap<u32, ButtplugClientDevice>;

/// An entry of the registry: a device index and the handle stored under it.
pub struct RegistryEntry {
    pub index: u32,
    pub device: ButtplugClientDevice,
}

/// A registry's contents when it holds no device.
pub open spec fn no_devices() -> Map<u32, ButtplugClientDevice> {
    Map::empty()
}

/// What a registry holds: the handle stored under each device index.
pub uninterp spec fn registry_contents(registry: DeviceRegistry) -> Map<
    u32,
    ButtplugClientDevice,
>;

/// `DashMap::new`: a map that holds nothing.
#[verifier::external_body]
pub(crate) fn registry_new() -> (res: DeviceRegistry)
    ensures
        registry_contents(res) == no_devices(),
{
    DashMap::new()
}

/// `DashMap::insert`: stores the handle under the index, in place of the one
/// that was there, and returns the one that was there.
#[verifier::external_body]
pub(crate) fn registry_insert(
    registry: &mut DeviceRegistry,
    index: u32,
    device: ButtplugClientDevice,
) -> (res: Option<ButtplugClientDevice>)
    ensures
        registry_contents(*final(registry)) == registry_contents(*old(registry)).insert(
            index,
            device,
        ),
        res == if registry_contents(*old(registry)).contains_key(index) {
            Some(registry_contents(*old(registry))[index])
        } else {
            None
        },
{
    registry.insert(index, device)
}

/// `DashMap::remove`: takes out the entry under the index, if there is one,
/// and returns its handle.
#[verifier::external_body]
pub(crate) fn registry_remove(registry: &mut DeviceRegistry, index: u32) -> (res:
    Option<ButtplugClientDevice>)
    ensures
        registry_contents(*final(registry)) == registry_contents(*old(registry)).remove(index),
        res == if registry_contents(*old(registry)).contains_key(index) {
            Some(registry_contents(*old(registry))[index])
        } else {
            None
        },
{
    registry.remove(&index).map(|entry| entry.1)
}

/// `DashMap::clear`: takes out every entry.
#[verifier::external_body]
pub(crate) fn registry_clear(registry: &mut DeviceRegistry)
    ensures
        registry_contents(*final(registry)) == no_devices(),
{
    registry.clear();
}

/// `DashMap::iter`: walks the entries, each once, in an order that the map
/// does not promise. The result lists each entry's index with a copy of its
/// handle.
#[verifier::external_body]
pub(crate) fn registry_entries(registry: &DeviceRegistry) -> (res: Vec<RegistryEntry>)
    ensures
        is_listing_of(res@, registry_contents(*registry)),
{
    registry
        .iter()
        .map(|entry| RegistryEntry { index: *entry.key(), device: entry.value().clone() })
        .collect()
}

/// `entries` lists what `contents` holds: every entry once, nothing else.
pub open spec fn is_listing_of(
    entries: Seq<RegistryEntry>,
    contents: Map<u32, ButtplugClientDevice>,
) -> bool {
    &&& forall|i: int|
        0 <= i < entries.len() ==> contents.contains_pair(
            (#[trigger] entries[i]).index,
            entries[i].device,
        )
    &&& forall|i: int, j: int|
        0 <= i < entries.len() && 0 <= j < entries.len() && i != j ==> (#[trigger] entries[i]).index
            != (#[trigger] entries[j]).index
    &&& forall|index: u32| #[trigger]
        contents.contains_key(index) ==> exists|i: int|
            0 <= i < entries.len() && (#[trigger] entries[i]).index == index
}

} // verus!
