use droidplug::addr::BDAddr;
use droidplug::api::CentralEvent;
use droidplug::api::Error;
use droidplug::api::PeripheralProperties;
use droidplug::api::ScanFilter;
use droidplug::adapter::Adapter;
use droidplug::adapter::ScanCommand;
use droidplug::init;
use droidplug::objects::ScanResult;
use droidplug::peripheral::PeripheralId;

fn scan(address: &str, name: &str) -> ScanResult {
    ScanResult {
        address: address.to_string(),
        addressType: Some(1),
        localName: Some(name.to_string()),
        txPowerLevel: None,
        rssi: Some(-42),
        manufacturerData: Vec::new(),
        serviceData: Vec::new(),
        services: Vec::new(),
    }
}

fn bare_properties(address: BDAddr) -> PeripheralProperties {
    PeripheralProperties {
        address,
        address_type: None,
        local_name: None,
        tx_power_level: None,
        rssi: None,
        manufacturer_data: Vec::new(),
        service_data: Vec::new(),
        services: Vec::new(),
    }
}

fn drain(adapter: &mut Adapter, sub: usize) -> Vec<CentralEvent> {
    let mut events = Vec::new();
    while let Some(e) = adapter.next_event(sub) {
        events.push(e);
    }
    events
}

#[test]
fn first_sighting_discovers_then_advertises() {
    let mut adapter = init();
    let sub = adapter.subscribe();
    let record = adapter.report_scan_result(scan("AA:BB:CC:DD:EE:FF", "Widget")).unwrap();
    let id = PeripheralId(BDAddr { value: 0xAABBCCDDEEFF });
    assert_eq!(record.address, id.0);
    let events = drain(&mut adapter, sub);
    assert_eq!(events.len(), 4);
    assert_eq!(events[0], CentralEvent::DeviceDiscovered(id));
    assert_eq!(
        events[1],
        CentralEvent::ManufacturerDataAdvertisement { id, manufacturer_data: Vec::new() }
    );
    assert_eq!(
        events[2],
        CentralEvent::ServiceDataAdvertisement { id, service_data: Vec::new() }
    );
    assert_eq!(events[3], CentralEvent::ServicesAdvertisement { id, services: Vec::new() });
    let stored = adapter.peripheral(&id).unwrap();
    let props = stored.properties().unwrap();
    assert_eq!(props.local_name, Some("Widget".to_string()));
    assert_eq!(props.rssi, Some(-42));
}

#[test]
fn second_sighting_updates_and_replaces() {
    let mut adapter = init();
    let id = PeripheralId(BDAddr { value: 0xAABBCCDDEEFF });
    adapter.report_scan_result(scan("AA:BB:CC:DD:EE:FF", "Widget")).unwrap();
    let sub = adapter.subscribe();
    let mut second = scan("AA:BB:CC:DD:EE:FF", "Widget2");
    second.rssi = None;
    adapter.report_scan_result(second).unwrap();
    let events = drain(&mut adapter, sub);
    assert_eq!(events.len(), 4);
    assert_eq!(events[0], CentralEvent::DeviceUpdated(id));
    assert!(matches!(events[1], CentralEvent::ManufacturerDataAdvertisement { .. }));
    let props = adapter.peripheral(&id).unwrap().properties().unwrap();
    assert_eq!(props.local_name, Some("Widget2".to_string()));
    assert_eq!(props.rssi, None, "old bundle must not be merged in");
    assert_eq!(adapter.peripherals().len(), 1);
}

#[test]
fn garbage_address_changes_nothing() {
    let mut adapter = init();
    adapter.report_scan_result(scan("AA:BB:CC:DD:EE:FF", "Widget")).unwrap();
    let sub = adapter.subscribe();
    let r = adapter.report_scan_result(scan("", "Nameless"));
    assert!(matches!(r, Err(Error::AddressParse(_))));
    let r = adapter.report_scan_result(scan("zz:zz", "Nameless"));
    assert!(matches!(r, Err(Error::AddressParse(_))));
    assert_eq!(adapter.peripherals().len(), 1);
    assert!(adapter.next_event(sub).is_none());
}

#[test]
fn sighting_without_bundle_changes_nothing() {
    let mut adapter = init();
    let addr = BDAddr { value: 0xAABBCCDDEEFF };
    let sub = adapter.subscribe();
    let r = adapter.report_sighting(addr, None);
    assert_eq!(r, Err(Error::DeviceNotFound));
    assert!(adapter.peripherals().is_empty());
    assert!(adapter.next_event(sub).is_none());
    // the same strictness holds for an identity that is already known
    adapter.report_sighting(addr, Some(bare_properties(addr))).unwrap();
    let r = adapter.report_sighting(addr, None);
    assert_eq!(r, Err(Error::DeviceNotFound));
    assert_eq!(adapter.peripherals().len(), 1);
}

#[test]
fn distinct_sightings_make_distinct_records() {
    let mut adapter = init();
    adapter.report_scan_result(scan("00:00:00:00:00:01", "One")).unwrap();
    adapter.report_scan_result(scan("00:00:00:00:00:02", "Two")).unwrap();
    adapter.report_scan_result(scan("00:00:00:00:00:03", "Three")).unwrap();
    adapter.report_scan_result(scan("00:00:00:00:00:02", "TwoAgain")).unwrap();
    let records = adapter.peripherals();
    assert_eq!(records.len(), 3);
    let names: Vec<Option<String>> = records
        .iter()
        .map(|p| p.properties().unwrap().local_name)
        .collect();
    assert_eq!(
        names,
        vec![
            Some("One".to_string()),
            Some("TwoAgain".to_string()),
            Some("Three".to_string())
        ]
    );
}

#[test]
fn subscriber_sees_only_events_after_its_creation() {
    let mut adapter = init();
    let early = adapter.subscribe();
    adapter.report_scan_result(scan("00:00:00:00:00:01", "One")).unwrap();
    let late = adapter.subscribe();
    adapter.report_scan_result(scan("00:00:00:00:00:02", "Two")).unwrap();
    let early_events = drain(&mut adapter, early);
    let late_events = drain(&mut adapter, late);
    assert_eq!(early_events.len(), 8);
    assert_eq!(late_events.len(), 4);
    let id_one = PeripheralId(BDAddr { value: 1 });
    let id_two = PeripheralId(BDAddr { value: 2 });
    assert_eq!(early_events[0], CentralEvent::DeviceDiscovered(id_one));
    assert_eq!(early_events[4], CentralEvent::DeviceDiscovered(id_two));
    assert_eq!(late_events[0], CentralEvent::DeviceDiscovered(id_two));
    assert!(!late_events.contains(&CentralEvent::DeviceDiscovered(id_one)));
}

#[test]
fn lagging_subscriber_loses_oldest_events() {
    let mut adapter = init();
    let sub = adapter.subscribe();
    let id = PeripheralId(BDAddr { value: 7 });
    for _ in 0..20 {
        adapter.emit(CentralEvent::DeviceConnected(id));
    }
    adapter.emit(CentralEvent::DeviceDisconnected(id));
    let events = drain(&mut adapter, sub);
    // capacity is sixteen: the oldest five of the twenty-one events are gone,
    // the newest sixteen arrive in publication order
    assert_eq!(events.len(), 16);
    assert_eq!(events[15], CentralEvent::DeviceDisconnected(id));
    for e in events.iter().take(15) {
        assert_eq!(*e, CentralEvent::DeviceConnected(id));
    }
}

#[test]
fn emit_passes_lifecycle_events_verbatim() {
    let mut adapter = init();
    let sub = adapter.subscribe();
    let id = PeripheralId(BDAddr { value: 9 });
    adapter.emit(CentralEvent::DeviceDisconnected(id));
    adapter.emit(CentralEvent::DeviceLost(id));
    let events = drain(&mut adapter, sub);
    assert_eq!(
        events,
        vec![CentralEvent::DeviceDisconnected(id), CentralEvent::DeviceLost(id)]
    );
}

#[test]
fn add_peripheral_is_idempotent_and_silent() {
    let mut adapter = init();
    let sub = adapter.subscribe();
    let id = PeripheralId(BDAddr { value: 5 });
    let a = adapter.add_peripheral(&id).unwrap();
    let b = adapter.add_peripheral(&id).unwrap();
    assert_eq!(a.address, id.0);
    assert_eq!(b.address, id.0);
    assert!(a.properties().is_none());
    assert_eq!(adapter.peripherals().len(), 1);
    assert!(adapter.next_event(sub).is_none());
}

#[test]
fn unknown_peripheral_not_found() {
    let adapter = init();
    let id = PeripheralId(BDAddr { value: 0xDEAD });
    assert!(matches!(adapter.peripheral(&id), Err(Error::DeviceNotFound)));
}

#[test]
fn scan_commands_carry_filter_through() {
    let adapter = init();
    let filter = ScanFilter { services: vec![1u128, 2u128] };
    match adapter.start_scan(filter) {
        ScanCommand::Start { services } => assert_eq!(services, vec![1u128, 2u128]),
        ScanCommand::Stop => panic!("expected a start command"),
    }
    assert!(matches!(adapter.stop_scan(), ScanCommand::Stop));
}

#[test]
fn adapter_info_names_platform() {
    let adapter = init();
    assert_eq!(adapter.adapter_info(), "Android".to_string());
}

#[test]
fn connection_operations_are_not_supported() {
    let mut adapter = init();
    let id = PeripheralId(BDAddr { value: 3 });
    let p = adapter.add_peripheral(&id).unwrap();
    assert_eq!(p.connect(), Err(Error::DeviceNotFound));
    assert_eq!(p.is_connected(), Err(Error::DeviceNotFound));
    assert_eq!(p.disconnect(), Err(Error::DeviceNotFound));
    assert_eq!(p.discover_services(), Err(Error::DeviceNotFound));
    assert_eq!(p.id(), id);
}
