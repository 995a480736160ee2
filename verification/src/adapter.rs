//! The adapter: the one component external callers interact with.
//!
//! It owns the manager (registry plus event bridge), turns raw sightings
//! into registry updates and published events, and forwards scan commands to
//! the external device driver unchanged.

use vstd::prelude::*;

verus! {

use vstd::utf8::encode_utf8;

use crate::addr::spec_parse_addr;
use crate::addr::BDAddr;
use crate::addr::ParseBDAddrError;
use crate::api::copy_entries128;
use crate::api::copy_entries16;
use crate::api::copy_ids;
use crate::api::CentralEvent;
use crate::api::Error;
use crate::api::EventView;
use crate::api::PeripheralProperties;
use crate::api::PropertiesView;
use crate::api::ScanFilter;
use crate::manager::AdapterManager;
use crate::manager::EVENT_QUEUE_CAPACITY;
use crate::objects::spec_scan_properties;
use crate::objects::ScanResult;
use crate::peripheral::Peripheral;
use crate::peripheral::PeripheralId;
use crate::peripheral::PeripheralView;

/// A scan command forwarded to the external device driver, its
/// configuration carried through unmodified.
pub enum ScanCommand {
    Start { services: Vec<u128> },
    Stop,
}

/// The four events a successful sighting publishes, in their fixed order:
/// discovery or update first, then the three advertisement events carrying
/// the new bundle.
pub open spec fn spec_sighting_events(props: PropertiesView, new: bool) -> Seq<EventView> {
    seq![
        if new {
            EventView::DeviceDiscovered(PeripheralId(props.address))
        } else {
            EventView::DeviceUpdated(PeripheralId(props.address))
        },
        EventView::ManufacturerDataAdvertisement {
            id: PeripheralId(props.address),
            manufacturer_data: props.manufacturer_data,
        },
        EventView::ServiceDataAdvertisement {
            id: PeripheralId(props.address),
            service_data: props.service_data,
        },
        EventView::ServicesAdvertisement {
            id: PeripheralId(props.address),
            services: props.services,
        },
    ]
}

/// Law: a first sighting publishes exactly one discovery event, first, and
/// then the three advertisement events carrying the new bundle, in that
/// fixed order.
pub proof fn lemma_first_sighting_events(props: PropertiesView)
    ensures
        spec_sighting_events(props, true).len() == 4,
        spec_sighting_events(props, true)[0] == EventView::DeviceDiscovered(
            PeripheralId(props.address),
        ),
        spec_sighting_events(props, true)[1] == (EventView::ManufacturerDataAdvertisement {
            id: PeripheralId(props.address),
            manufacturer_data: props.manufacturer_data,
        }),
        spec_sighting_events(props, true)[2] == (EventView::ServiceDataAdvertisement {
            id: PeripheralId(props.address),
            service_data: props.service_data,
        }),
        spec_sighting_events(props, true)[3] == (EventView::ServicesAdvertisement {
            id: PeripheralId(props.address),
            services: props.services,
        }),
{
}

/// Law: a sighting of an already-known identity publishes an update event,
/// never a discovery event, followed by the same three advertisement events.
pub proof fn lemma_update_never_rediscovers(props: PropertiesView)
    ensures
        spec_sighting_events(props, false).len() == 4,
        spec_sighting_events(props, false)[0] == EventView::DeviceUpdated(
            PeripheralId(props.address),
        ),
        forall|k: int|
            0 <= k < spec_sighting_events(props, false).len() ==> !(#[trigger] spec_sighting_events(
                props,
                false,
            )[k] is DeviceDiscovered),
{
}

/// The handle external callers hold: one per adapter session.
pub struct Adapter {
    pub manager: AdapterManager,
}

impl Adapter {
    /// The manager's invariant.
    pub open spec fn wf(self) -> bool {
        self.manager.wf()
    }

    /// The records the registry holds.
    pub open spec fn records(self) -> Seq<PeripheralView> {
        self.manager.records()
    }

    /// Whether some record carries this identity.
    pub open spec fn contains_addr(self, address: BDAddr) -> bool {
        self.manager.contains_addr(address)
    }

    /// The record carrying this identity; meaningful only where one exists.
    pub open spec fn record_of(self, address: BDAddr) -> PeripheralView {
        self.manager.record_of(address)
    }

    /// The publication history.
    pub open spec fn history(self) -> Seq<EventView> {
        self.manager.history()
    }

    /// How many subscriptions exist.
    pub open spec fn sub_count(self) -> int {
        self.manager.sub_count()
    }

    /// A fresh adapter: no known devices, no history, no subscribers.
    pub fn new() -> (r: Self)
        ensures
            r.wf(),
            r.records() == Seq::<PeripheralView>::empty(),
            r.history() == Seq::<EventView>::empty(),
            r.sub_count() == 0,
    {
        Adapter { manager: AdapterManager::new() }
    }

    /// Registers an identity without a sighting and publishes no event
    /// (used internally on a first sighting).
    fn add(&mut self, address: BDAddr) -> (r: Peripheral)
        requires
            old(self).wf(),
        ensures
            final(self).wf(),
            final(self).history() == old(self).history(),
            final(self).manager.subscribers == old(self).manager.subscribers,
            final(self).contains_addr(address),
            r@ == final(self).record_of(address),
            r@.address == address,
            old(self).contains_addr(address) ==> final(self).manager.registry == old(
                self,
            ).manager.registry && r@ == old(self).record_of(address),
            !old(self).contains_addr(address) ==> final(self).records() == old(
                self,
            ).records().push(PeripheralView { address, properties: None }),
    {
        self.manager.add_peripheral(address)
    }

    /// Stores the bundle on the record keyed by `peripheral`'s address, then
    /// publishes the discovery or update event and the three advertisement
    /// events, in that fixed order, carrying the new bundle.
    fn report_properties(&mut self, peripheral: &Peripheral, properties: PeripheralProperties, new:
        bool)
        requires
            old(self).wf(),
            old(self).contains_addr(peripheral@.address),
        ensures
            final(self).wf(),
            final(self).history() == old(self).history() + spec_sighting_events(
                properties@,
                new,
            ),
            final(self).sub_count() == old(self).sub_count(),
            forall|j: int|
                0 <= j < old(self).sub_count() ==> final(self).manager.created_at(j) == old(
                    self,
                ).manager.created_at(j) && final(self).manager.taken(j) == old(
                    self,
                ).manager.taken(j),
            final(self).records() == old(self).records().update(
                old(self).manager.registry.index_of(peripheral@.address),
                PeripheralView { address: peripheral@.address, properties: Some(properties@) },
            ),
            forall|j: int|
                0 <= j < old(self).sub_count() && old(self).manager.pending(j).len() + 4
                    <= EVENT_QUEUE_CAPACITY ==> #[trigger] final(self).manager.pending(j)
                    == old(self).manager.pending(j) + spec_sighting_events(properties@, new)
                    && final(self).manager.lost(j) == old(self).manager.lost(j),
    {
        let id = PeripheralId(properties.address);
        let manufacturer_data = copy_entries16(&properties.manufacturer_data);
        let service_data = copy_entries128(&properties.service_data);
        let services = copy_ids(&properties.services);
        let key = peripheral.address();
        let ghost propsv = properties@;
        let _ = self.manager.update_properties(key, properties);
        let ghost m0 = self.manager;
        let first = if new {
            CentralEvent::DeviceDiscovered(id)
        } else {
            CentralEvent::DeviceUpdated(id)
        };
        proof {
            assert(first@ == spec_sighting_events(propsv, new)[0]);
        }
        self.manager.emit(first);
        let ghost m1 = self.manager;
        self.manager.emit(
            CentralEvent::ManufacturerDataAdvertisement { id, manufacturer_data },
        );
        let ghost m2 = self.manager;
        self.manager.emit(CentralEvent::ServiceDataAdvertisement { id, service_data });
        let ghost m3 = self.manager;
        self.manager.emit(CentralEvent::ServicesAdvertisement { id, services });
        proof {
            let evs = spec_sighting_events(propsv, new);
            assert(self.manager.history() =~= m0.history() + evs);
            assert forall|j: int|
                0 <= j < old(self).sub_count() && old(self).manager.pending(j).len() + 4
                    <= EVENT_QUEUE_CAPACITY implies #[trigger] self.manager.pending(j)
                == old(self).manager.pending(j) + evs && self.manager.lost(j) == old(
                self,
            ).manager.lost(j) by {
                assert(m0.pending(j) == old(self).manager.pending(j));
                assert(m1.pending(j) == m0.pending(j).push(evs[0]));
                assert(m2.pending(j) == m1.pending(j).push(evs[1]));
                assert(m3.pending(j) == m2.pending(j).push(evs[2]));
                assert(self.manager.pending(j) == m3.pending(j).push(evs[3]));
                assert(self.manager.pending(j) =~= m0.pending(j) + evs);
            }
        }
    }

    /// The sole ingestion point for normalized sightings: an identity plus
    /// an optional property bundle.
    ///
    /// A sighting with no bundle fails with `DeviceNotFound` and performs no
    /// state change, whether or not the identity is known. A sighting with a
    /// bundle updates (or first creates) the record keyed by `address`,
    /// publishes the discovery or update event followed by the three
    /// advertisement events, and returns the resulting record.
    pub fn report_sighting(&mut self, address: BDAddr, properties: Option<PeripheralProperties>)
        -> (r: Result<Peripheral, Error>)
        requires
            old(self).wf(),
        ensures
            final(self).wf(),
            final(self).sub_count() == old(self).sub_count(),
            forall|j: int|
                0 <= j < old(self).sub_count() ==> final(self).manager.created_at(j) == old(
                    self,
                ).manager.created_at(j) && final(self).manager.taken(j) == old(
                    self,
                ).manager.taken(j),
            properties is None ==> r == Err::<Peripheral, Error>(Error::DeviceNotFound)
                && *final(self) == *old(self),
            properties matches Some(props) ==> {
                let stored = PeripheralView { address, properties: Some(props@) };
                &&& r matches Ok(p) && p@ == stored
                &&& final(self).history() == old(self).history() + spec_sighting_events(
                    props@,
                    !old(self).contains_addr(address),
                )
                &&& final(self).contains_addr(address)
                &&& final(self).record_of(address) == stored
                &&& (old(self).contains_addr(address) ==> final(self).records() == old(
                    self,
                ).records().update(old(self).manager.registry.index_of(address), stored))
                &&& (!old(self).contains_addr(address) ==> final(self).records() == old(
                    self,
                ).records().push(stored))
                &&& forall|j: int|
                    0 <= j < old(self).sub_count() && old(self).manager.pending(j).len() + 4
                        <= EVENT_QUEUE_CAPACITY ==> #[trigger] final(self).manager.pending(j)
                        == old(self).manager.pending(j) + spec_sighting_events(
                        props@,
                        !old(self).contains_addr(address),
                    ) && final(self).manager.lost(j) == old(self).manager.lost(j)
            },
    {
        match self.manager.peripheral(&PeripheralId(address)) {
            Some(p) => match properties {
                Some(properties) => {
                    let result = Peripheral {
                        address,
                        properties: Some(properties.snapshot()),
                    };
                    let ghost r0 = old(self).manager.registry;
                    self.report_properties(&p, properties, false);
                    proof {
                        self.lemma_updated_record(r0, address, properties@);
                    }
                    Ok(result)
                },
                None => Err(Error::DeviceNotFound),
            },
            None => match properties {
                Some(properties) => {
                    let p = self.add(address);
                    let result = Peripheral {
                        address,
                        properties: Some(properties.snapshot()),
                    };
                    let ghost r1 = self.manager.registry;
                    self.report_properties(&p, properties, true);
                    proof {
                        self.lemma_updated_record(r1, address, properties@);
                        assert(final(self).records() =~= old(self).records().push(
                            PeripheralView { address, properties: Some(properties@) },
                        ));
                    }
                    Ok(result)
                },
                None => Err(Error::DeviceNotFound),
            },
        }
    }

    /// After an update of the record keyed by `address`, that record is the
    /// one `record_of` denotes.
    proof fn lemma_updated_record(
        &self,
        pre: crate::registry::PeripheralRegistry,
        address: BDAddr,
        props: PropertiesView,
    )
        requires
            self.wf(),
            pre.wf(),
            pre.contains_addr(address),
            self.manager.registry.records() == pre.records().update(
                pre.index_of(address),
                PeripheralView { address, properties: Some(props) },
            ),
        ensures
            self.contains_addr(address),
            self.record_of(address) == (PeripheralView { address, properties: Some(props) }),
    {
        let idx = pre.index_of(address);
        assert(0 <= idx < pre.records().len() && pre.records()[idx].address == address);
        assert(self.manager.registry.records()[idx].address == address);
        assert(self.contains_addr(address));
        let k = self.manager.registry.index_of(address);
        assert(0 <= k < self.manager.registry.records().len()
            && self.manager.registry.records()[k].address == address);
        assert(k == idx);
    }

    /// Feeds one raw scan result in: parses its identity, derives the
    /// property bundle, and reports the sighting. A malformed identity
    /// string fails with the parse error and performs no state change.
    pub fn report_scan_result(&mut self, scan_result: ScanResult) -> (r: Result<Peripheral, Error>)
        requires
            old(self).wf(),
        ensures
            final(self).wf(),
            final(self).sub_count() == old(self).sub_count(),
            forall|j: int|
                0 <= j < old(self).sub_count() ==> final(self).manager.created_at(j) == old(
                    self,
                ).manager.created_at(j) && final(self).manager.taken(j) == old(
                    self,
                ).manager.taken(j),
            spec_parse_addr(encode_utf8(scan_result.address@)) is None ==> r == Err::<
                Peripheral,
                Error,
            >(Error::AddressParse(ParseBDAddrError::Invalid)) && *final(self) == *old(self),
            spec_parse_addr(encode_utf8(scan_result.address@)) matches Some(v) ==> {
                let address = BDAddr { value: v };
                let props = spec_scan_properties(scan_result, address);
                let stored = PeripheralView { address, properties: Some(props) };
                &&& r matches Ok(p) && p@ == stored
                &&& final(self).history() == old(self).history() + spec_sighting_events(
                    props,
                    !old(self).contains_addr(address),
                )
                &&& final(self).contains_addr(address)
                &&& final(self).record_of(address) == stored
                &&& (old(self).contains_addr(address) ==> final(self).records() == old(
                    self,
                ).records().update(old(self).manager.registry.index_of(address), stored))
                &&& (!old(self).contains_addr(address) ==> final(self).records() == old(
                    self,
                ).records().push(stored))
                &&& forall|j: int|
                    0 <= j < old(self).sub_count() && old(self).manager.pending(j).len() + 4
                        <= EVENT_QUEUE_CAPACITY ==> #[trigger] final(self).manager.pending(j)
                        == old(self).manager.pending(j) + spec_sighting_events(
                        props,
                        !old(self).contains_addr(address),
                    ) && final(self).manager.lost(j) == old(self).manager.lost(j)
            },
    {
        let (address, properties) = match scan_result.into_sighting() {
            Ok(t) => t,
            Err(e) => {
                return Err(Error::AddressParse(e));
            },
        };
        self.report_sighting(address, properties)
    }

    /// Opens a new, independent, live subscription on the event bridge:
    /// events published earlier are not replayed.
    pub fn subscribe(&mut self) -> (sub: usize)
        requires
            old(self).wf(),
        ensures
            final(self).wf(),
            sub as int == old(self).sub_count(),
            final(self).sub_count() == old(self).sub_count() + 1,
            final(self).history() == old(self).history(),
            final(self).manager.registry == old(self).manager.registry,
            final(self).manager.created_at(sub as int) == old(self).history().len(),
            final(self).manager.pending(sub as int) == Seq::<EventView>::empty(),
            final(self).manager.taken(sub as int) == Seq::<EventView>::empty(),
            final(self).manager.lost(sub as int) == 0,
    {
        self.manager.subscribe()
    }

    /// Hands subscription `sub` its oldest undelivered event, if any, in
    /// publication order.
    pub fn next_event(&mut self, sub: usize) -> (r: Option<CentralEvent>)
        requires
            old(self).wf(),
        ensures
            final(self).wf(),
            final(self).history() == old(self).history(),
            final(self).manager.registry == old(self).manager.registry,
            final(self).sub_count() == old(self).sub_count(),
            (sub as int) < old(self).sub_count() ==> match r {
                Some(e) => old(self).manager.pending(sub as int).len() > 0 && e@ == old(
                    self,
                ).manager.pending(sub as int)[0] && final(self).manager.taken(sub as int) == old(
                    self,
                ).manager.taken(sub as int).push(e@),
                None => old(self).manager.pending(sub as int).len() == 0,
            },
            sub as int >= old(self).sub_count() ==> r is None,
    {
        self.manager.next_event(sub)
    }

    /// Publishes one event verbatim; the entry point for connection
    /// lifecycle signals from the external device driver.
    pub fn emit(&mut self, event: CentralEvent)
        requires
            old(self).wf(),
        ensures
            final(self).wf(),
            final(self).history() == old(self).history().push(event@),
            final(self).manager.registry == old(self).manager.registry,
            final(self).sub_count() == old(self).sub_count(),
    {
        self.manager.emit(event)
    }

    /// Snapshots of every peripheral discovered so far.
    pub fn peripherals(&self) -> (r: Vec<Peripheral>)
        ensures
            r@.map_values(|p: Peripheral| p@) == self.records(),
    {
        self.manager.peripherals()
    }

    /// A snapshot of one peripheral by identity, or `DeviceNotFound`.
    pub fn peripheral(&self, id: &PeripheralId) -> (r: Result<Peripheral, Error>)
        requires
            self.wf(),
        ensures
            self.contains_addr(id.0) ==> (r matches Ok(p) && p@ == self.record_of(id.0)),
            !self.contains_addr(id.0) ==> r == Err::<Peripheral, Error>(Error::DeviceNotFound),
    {
        match self.manager.peripheral(id) {
            Some(p) => Ok(p),
            None => Err(Error::DeviceNotFound),
        }
    }

    /// Registers a peripheral from an identity known out-of-band, without a
    /// scan result; publishes no event. Idempotent.
    pub fn add_peripheral(&mut self, id: &PeripheralId) -> (r: Result<Peripheral, Error>)
        requires
            old(self).wf(),
        ensures
            final(self).wf(),
            final(self).history() == old(self).history(),
            final(self).sub_count() == old(self).sub_count(),
            final(self).contains_addr(id.0),
            r matches Ok(p) && p@ == final(self).record_of(id.0),
            old(self).contains_addr(id.0) ==> final(self).manager.registry == old(
                self,
            ).manager.registry,
            !old(self).contains_addr(id.0) ==> final(self).records() == old(self).records().push(
                PeripheralView { address: id.0, properties: None },
            ),
    {
        Ok(self.add(id.0))
    }

    /// The start-scan command for the external device driver, the filter's
    /// services carried through unmodified.
    pub fn start_scan(&self, filter: ScanFilter) -> (r: ScanCommand)
        ensures
            r matches ScanCommand::Start { services } && services@ == filter.services@,
    {
        ScanCommand::Start { services: filter.services }
    }

    /// The stop-scan command for the external device driver.
    pub fn stop_scan(&self) -> (r: ScanCommand)
        ensures
            r is Stop,
    {
        ScanCommand::Stop
    }

    /// A fixed description of the adapter platform, useful for debug logs.
    pub fn adapter_info(&self) -> (r: String)
        ensures
            r@ == "Android"@,
    {
        "Android".to_owned()
    }
}

} // verus!
