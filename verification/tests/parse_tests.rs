use droidplug::addr::BDAddr;
use droidplug::api::AddressType;
use droidplug::objects::ParseAddressTypeError;
use droidplug::objects::ScanResult;

fn empty_scan_result(address: &str) -> ScanResult {
    ScanResult {
        address: address.to_string(),
        addressType: None,
        localName: None,
        txPowerLevel: None,
        rssi: None,
        manufacturerData: Vec::new(),
        serviceData: Vec::new(),
        services: Vec::new(),
    }
}

#[test]
fn parses_uppercase_address() {
    let a = BDAddr::from_str_addr("AA:BB:CC:DD:EE:FF").unwrap();
    assert_eq!(a.value, 0xAABBCCDDEEFF);
}

#[test]
fn parses_lowercase_and_mixed_address() {
    let a = BDAddr::from_str_addr("aa:bb:cc:dd:ee:ff").unwrap();
    assert_eq!(a.value, 0xAABBCCDDEEFF);
    let b = BDAddr::from_str_addr("01:23:45:67:89:aB").unwrap();
    assert_eq!(b.value, 0x0123456789AB);
}

#[test]
fn rejects_malformed_addresses() {
    assert!(BDAddr::from_str_addr("").is_err());
    assert!(BDAddr::from_str_addr("hello").is_err());
    assert!(BDAddr::from_str_addr("AA:BB:CC:DD:EE").is_err());
    assert!(BDAddr::from_str_addr("AA:BB:CC:DD:EE:F").is_err());
    assert!(BDAddr::from_str_addr("AA:BB:CC:DD:EE:FF:00").is_err());
    assert!(BDAddr::from_str_addr("AA-BB-CC-DD-EE-FF").is_err());
    assert!(BDAddr::from_str_addr("GG:BB:CC:DD:EE:FF").is_err());
    assert!(BDAddr::from_str_addr("AABBCCDDEEFF00000").is_err());
}

#[test]
fn address_type_codes() {
    assert_eq!(AddressType::try_from(0), Ok(AddressType::Random));
    assert_eq!(AddressType::try_from(1), Ok(AddressType::Public));
    assert_eq!(AddressType::try_from(2), Err(ParseAddressTypeError::Invalid));
    assert_eq!(AddressType::try_from(-1), Err(ParseAddressTypeError::Invalid));
}

#[test]
fn scan_result_carries_fields_through() {
    let mut scan = empty_scan_result("AA:BB:CC:DD:EE:FF");
    scan.addressType = Some(1);
    scan.localName = Some("Widget".to_string());
    scan.txPowerLevel = Some(-4);
    scan.rssi = Some(-60);
    scan.manufacturerData = vec![(0x004C, vec![1, 2, 3])];
    let props = scan.into_properties().unwrap();
    assert_eq!(props.address.value, 0xAABBCCDDEEFF);
    assert_eq!(props.address_type, Some(AddressType::Public));
    assert_eq!(props.local_name, Some("Widget".to_string()));
    assert_eq!(props.tx_power_level, Some(-4));
    assert_eq!(props.rssi, Some(-60));
    assert_eq!(props.manufacturer_data, vec![(0x004C, vec![1, 2, 3])]);
    assert!(props.service_data.is_empty());
    assert!(props.services.is_empty());
}

#[test]
fn scan_result_narrows_wide_fields() {
    let mut scan = empty_scan_result("AA:BB:CC:DD:EE:FF");
    scan.addressType = Some(7);
    scan.txPowerLevel = Some(70000);
    scan.manufacturerData = vec![(0x1FFFF, vec![9])];
    let props = scan.into_properties().unwrap();
    assert_eq!(props.address_type, None);
    assert_eq!(props.tx_power_level, Some(4464));
    assert_eq!(props.manufacturer_data, vec![(0xFFFF, vec![9])]);
}

#[test]
fn scan_result_keeps_only_wellformed_uuids() {
    let mut scan = empty_scan_result("AA:BB:CC:DD:EE:FF");
    scan.services = vec![
        "0000180d-0000-1000-8000-00805f9b34fb".to_string(),
        "not-a-uuid".to_string(),
    ];
    scan.serviceData = vec![
        ("0000180f-0000-1000-8000-00805f9b34fb".to_string(), vec![1, 2]),
        ("bad".to_string(), vec![3]),
    ];
    let props = scan.into_properties().unwrap();
    assert_eq!(props.services, vec![0x0000180d_0000_1000_8000_00805f9b34fbu128]);
    assert_eq!(
        props.service_data,
        vec![(0x0000180f_0000_1000_8000_00805f9b34fbu128, vec![1, 2])]
    );
}

#[test]
fn scan_result_with_bad_address_rejected() {
    let scan = empty_scan_result("not an address");
    assert!(scan.into_properties().is_err());
    let scan = empty_scan_result("");
    assert!(scan.into_sighting().is_err());
}

#[test]
fn sighting_splits_identity_and_bundle() {
    let mut scan = empty_scan_result("01:02:03:04:05:06");
    scan.localName = Some("Thing".to_string());
    let (addr, props) = scan.into_sighting().unwrap();
    assert_eq!(addr.value, 0x010203040506);
    let props = props.unwrap();
    assert_eq!(props.address, addr);
    assert_eq!(props.local_name, Some("Thing".to_string()));
}
