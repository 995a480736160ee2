//! The shared vocabulary of the registry and the event bridge: property
//! bundles carried by sightings, the events published on the bridge, scan
//! filters, and the error taxonomy.

use vstd::prelude::*;

verus! {

use crate::addr::BDAddr;
use crate::addr::ParseBDAddrError;
use crate::peripheral::PeripheralId;

/// Whether a device advertises under a public or a random address.
#[derive(Clone, Copy, PartialEq, Eq, Structural, Hash, Debug)]
pub enum AddressType {
    Random,
    Public,
}

/// A failure surfaced to the caller.
#[derive(PartialEq, Eq, Debug)]
pub enum Error {
    /// A sighting carried no usable payload, or a lookup targeted an unknown
    /// identity.
    DeviceNotFound,
    /// A malformed identity string; the operation performed no state change.
    AddressParse(ParseBDAddrError),
    /// A failure reported by the delegated device driver, opaque to this
    /// library and propagated unchanged.
    External(String),
}

/// The set of advertised service identifiers a scan is narrowed to.
pub struct ScanFilter {
    pub services: Vec<u128>,
}

/// The property bundle of a device record, replaced wholesale on every
/// sighting of its identity.
#[derive(Debug, PartialEq, Eq)]
pub struct PeripheralProperties {
    pub address: BDAddr,
    pub address_type: Option<AddressType>,
    pub local_name: Option<String>,
    pub tx_power_level: Option<i16>,
    pub rssi: Option<i16>,
    pub manufacturer_data: Vec<(u16, Vec<u8>)>,
    pub service_data: Vec<(u128, Vec<u8>)>,
    pub services: Vec<u128>,
}

/// The mathematical value of a property bundle.
#[verifier::ext_equal]
pub ghost struct PropertiesView {
    pub address: BDAddr,
    pub address_type: Option<AddressType>,
    pub local_name: Option<Seq<char>>,
    pub tx_power_level: Option<i16>,
    pub rssi: Option<i16>,
    pub manufacturer_data: Seq<(u16, Seq<u8>)>,
    pub service_data: Seq<(u128, Seq<u8>)>,
    pub services: Seq<u128>,
}

/// The values of a list of manufacturer-data entries.
pub open spec fn spec_entries16(s: Seq<(u16, Vec<u8>)>) -> Seq<(u16, Seq<u8>)> {
    s.map_values(|p: (u16, Vec<u8>)| (p.0, p.1@))
}

/// The values of a list of service-data entries.
pub open spec fn spec_entries128(s: Seq<(u128, Vec<u8>)>) -> Seq<(u128, Seq<u8>)> {
    s.map_values(|p: (u128, Vec<u8>)| (p.0, p.1@))
}

/// The value of an optional display name.
pub open spec fn spec_opt_name(s: Option<String>) -> Option<Seq<char>> {
    match s {
        Some(n) => Some(n@),
        None => None,
    }
}

impl View for PeripheralProperties {
    type V = PropertiesView;

    open spec fn view(&self) -> PropertiesView {
        PropertiesView {
            address: self.address,
            address_type: self.address_type,
            local_name: spec_opt_name(self.local_name),
            tx_power_level: self.tx_power_level,
            rssi: self.rssi,
            manufacturer_data: spec_entries16(self.manufacturer_data@),
            service_data: spec_entries128(self.service_data@),
            services: self.services@,
        }
    }
}

/// A copy of a byte payload.
pub fn copy_bytes(v: &Vec<u8>) -> (r: Vec<u8>)
    ensures
        r@ == v@,
{
    let mut r: Vec<u8> = Vec::new();
    let mut i: usize = 0;
    while i < v.len()
        invariant
            i <= v@.len(),
            r@ == v@.subrange(0, i as int),
        decreases v@.len() - i,
    {
        r.push(v[i]);
        proof {
            assert(v@.subrange(0, i as int).push(v@[i as int]) =~= v@.subrange(0, i as int + 1));
        }
        i = i + 1;
    }
    proof {
        assert(v@.subrange(0, v@.len() as int) =~= v@);
    }
    r
}

/// A copy of a list of manufacturer-data entries, value for value.
pub fn copy_entries16(v: &Vec<(u16, Vec<u8>)>) -> (r: Vec<(u16, Vec<u8>)>)
    ensures
        spec_entries16(r@) == spec_entries16(v@),
{
    let mut r: Vec<(u16, Vec<u8>)> = Vec::new();
    let mut i: usize = 0;
    while i < v.len()
        invariant
            i <= v@.len(),
            spec_entries16(r@) == spec_entries16(v@).subrange(0, i as int),
        decreases v@.len() - i,
    {
        let ghost prev = r@;
        let key = v[i].0;
        let payload = copy_bytes(&v[i].1);
        r.push((key, payload));
        proof {
            assert(spec_entries16(r@) =~= spec_entries16(prev).push((key, payload@)));
            assert(spec_entries16(v@).subrange(0, i as int).push((v@[i as int].0, v@[i as int].1@))
                =~= spec_entries16(v@).subrange(0, i as int + 1));
        }
        i = i + 1;
    }
    proof {
        assert(spec_entries16(v@).subrange(0, v@.len() as int) =~= spec_entries16(v@));
    }
    r
}

/// A copy of a list of service-data entries, value for value.
pub fn copy_entries128(v: &Vec<(u128, Vec<u8>)>) -> (r: Vec<(u128, Vec<u8>)>)
    ensures
        spec_entries128(r@) == spec_entries128(v@),
{
    let mut r: Vec<(u128, Vec<u8>)> = Vec::new();
    let mut i: usize = 0;
    while i < v.len()
        invariant
            i <= v@.len(),
            spec_entries128(r@) == spec_entries128(v@).subrange(0, i as int),
        decreases v@.len() - i,
    {
        let ghost prev = r@;
        let key = v[i].0;
        let payload = copy_bytes(&v[i].1);
        r.push((key, payload));
        proof {
            assert(spec_entries128(r@) =~= spec_entries128(prev).push((key, payload@)));
            assert(spec_entries128(v@).subrange(0, i as int).push(
                (v@[i as int].0, v@[i as int].1@),
            ) =~= spec_entries128(v@).subrange(0, i as int + 1));
        }
        i = i + 1;
    }
    proof {
        assert(spec_entries128(v@).subrange(0, v@.len() as int) =~= spec_entries128(v@));
    }
    r
}

/// A copy of a list of service identifiers.
pub fn copy_ids(v: &Vec<u128>) -> (r: Vec<u128>)
    ensures
        r@ == v@,
{
    let mut r: Vec<u128> = Vec::new();
    let mut i: usize = 0;
    while i < v.len()
        invariant
            i <= v@.len(),
            r@ == v@.subrange(0, i as int),
        decreases v@.len() - i,
    {
        r.push(v[i]);
        proof {
            assert(v@.subrange(0, i as int).push(v@[i as int]) =~= v@.subrange(0, i as int + 1));
        }
        i = i + 1;
    }
    proof {
        assert(v@.subrange(0, v@.len() as int) =~= v@);
    }
    r
}

/// A copy of an optional display name.
pub fn copy_opt_name(v: &Option<String>) -> (r: Option<String>)
    ensures
        spec_opt_name(r) == spec_opt_name(*v),
{
    match v {
        Some(s) => Some(s.clone()),
        None => None,
    }
}

impl PeripheralProperties {
    /// A copy of the whole bundle, value for value.
    pub fn snapshot(&self) -> (r: Self)
        ensures
            r@ == self@,
    {
        let r = PeripheralProperties {
            address: self.address,
            address_type: self.address_type,
            local_name: copy_opt_name(&self.local_name),
            tx_power_level: self.tx_power_level,
            rssi: self.rssi,
            manufacturer_data: copy_entries16(&self.manufacturer_data),
            service_data: copy_entries128(&self.service_data),
            services: copy_ids(&self.services),
        };
        proof {
            assert(r@ =~= self@);
        }
        r
    }
}

/// A state change announced on the event bridge.
#[derive(PartialEq, Eq, Debug)]
pub enum CentralEvent {
    /// The identity was sighted for the first time.
    DeviceDiscovered(PeripheralId),
    /// An already-known identity was sighted again.
    DeviceUpdated(PeripheralId),
    DeviceConnected(PeripheralId),
    DeviceDisconnected(PeripheralId),
    DeviceLost(PeripheralId),
    /// The manufacturer data carried by a sighting.
    ManufacturerDataAdvertisement { id: PeripheralId, manufacturer_data: Vec<(u16, Vec<u8>)> },
    /// The service data carried by a sighting.
    ServiceDataAdvertisement { id: PeripheralId, service_data: Vec<(u128, Vec<u8>)> },
    /// The advertised service identifiers carried by a sighting.
    ServicesAdvertisement { id: PeripheralId, services: Vec<u128> },
}

/// The mathematical value of an event.
#[verifier::ext_equal]
pub ghost enum EventView {
    DeviceDiscovered(PeripheralId),
    DeviceUpdated(PeripheralId),
    DeviceConnected(PeripheralId),
    DeviceDisconnected(PeripheralId),
    DeviceLost(PeripheralId),
    ManufacturerDataAdvertisement { id: PeripheralId, manufacturer_data: Seq<(u16, Seq<u8>)> },
    ServiceDataAdvertisement { id: PeripheralId, service_data: Seq<(u128, Seq<u8>)> },
    ServicesAdvertisement { id: PeripheralId, services: Seq<u128> },
}

impl View for CentralEvent {
    type V = EventView;

    open spec fn view(&self) -> EventView {
        match *self {
            CentralEvent::DeviceDiscovered(id) => EventView::DeviceDiscovered(id),
            CentralEvent::DeviceUpdated(id) => EventView::DeviceUpdated(id),
            CentralEvent::DeviceConnected(id) => EventView::DeviceConnected(id),
            CentralEvent::DeviceDisconnected(id) => EventView::DeviceDisconnected(id),
            CentralEvent::DeviceLost(id) => EventView::DeviceLost(id),
            CentralEvent::ManufacturerDataAdvertisement { id, manufacturer_data } =>
                EventView::ManufacturerDataAdvertisement {
                    id,
                    manufacturer_data: spec_entries16(manufacturer_data@),
                },
            CentralEvent::ServiceDataAdvertisement { id, service_data } =>
                EventView::ServiceDataAdvertisement {
                    id,
                    service_data: spec_entries128(service_data@),
                },
            CentralEvent::ServicesAdvertisement { id, services } =>
                EventView::ServicesAdvertisement { id, services: services@ },
        }
    }
}

impl CentralEvent {
    /// A copy of the event, value for value.
    pub fn duplicate(&self) -> (r: Self)
        ensures
            r@ == self@,
    {
        match self {
            CentralEvent::DeviceDiscovered(id) => CentralEvent::DeviceDiscovered(*id),
            CentralEvent::DeviceUpdated(id) => CentralEvent::DeviceUpdated(*id),
            CentralEvent::DeviceConnected(id) => CentralEvent::DeviceConnected(*id),
            CentralEvent::DeviceDisconnected(id) => CentralEvent::DeviceDisconnected(*id),
            CentralEvent::DeviceLost(id) => CentralEvent::DeviceLost(*id),
            CentralEvent::ManufacturerDataAdvertisement { id, manufacturer_data } =>
                CentralEvent::ManufacturerDataAdvertisement {
                    id: *id,
                    manufacturer_data: copy_entries16(manufacturer_data),
                },
            CentralEvent::ServiceDataAdvertisement { id, service_data } =>
                CentralEvent::ServiceDataAdvertisement {
                    id: *id,
                    service_data: copy_entries128(service_data),
                },
            CentralEvent::ServicesAdvertisement { id, services } =>
                CentralEvent::ServicesAdvertisement { id: *id, services: copy_ids(services) },
        }
    }
}

} // verus!
