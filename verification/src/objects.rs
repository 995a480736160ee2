//! Raw sightings and their normalization.
//!
//! A [`ScanResult`] is the transient report an external discovery source
//! hands in: an identity string plus whatever advertising payload came with
//! it. Normalization parses the identity, narrows the numeric fields, and
//! keeps exactly the service identifiers that are well-formed UUID text,
//! in the order they were reported.

use vstd::prelude::*;

verus! {

use vstd::utf8::encode_utf8;

use crate::addr::spec_parse_addr;
use crate::addr::BDAddr;
use crate::addr::ParseBDAddrError;
use crate::api::spec_entries128;
use crate::api::spec_opt_name;
use crate::api::AddressType;
use crate::api::PeripheralProperties;
use crate::api::PropertiesView;
use crate::api::copy_bytes;

/// A raw sighting as the external discovery source reports it.
#[allow(non_snake_case)]
#[derive(Debug)]
pub struct ScanResult {
    pub address: String,
    pub addressType: Option<i32>,
    pub localName: Option<String>,
    pub txPowerLevel: Option<i32>,
    pub rssi: Option<i32>,
    pub manufacturerData: Vec<(i32, Vec<u8>)>,
    pub serviceData: Vec<(String, Vec<u8>)>,
    pub services: Vec<String>,
}

/// Failure to read an address type out of its numeric code.
#[derive(Clone, Copy, PartialEq, Eq, Structural, Debug)]
pub enum ParseAddressTypeError {
    Invalid,
}

/// The address type denoted by a numeric code, or `None` for any other code.
pub open spec fn spec_address_type(value: i32) -> Option<AddressType> {
    if value == 0 {
        Some(AddressType::Random)
    } else if value == 1 {
        Some(AddressType::Public)
    } else {
        None
    }
}

impl AddressType {
    /// Reads an address type from its numeric code: exactly 0 (random) and
    /// 1 (public) are accepted.
    pub fn try_from(value: i32) -> (r: Result<AddressType, ParseAddressTypeError>)
        ensures
            match spec_address_type(value) {
                Some(t) => r == Ok::<AddressType, ParseAddressTypeError>(t),
                None => r == Err::<AddressType, ParseAddressTypeError>(
                    ParseAddressTypeError::Invalid,
                ),
            },
    {
        match value {
            0 => Ok(AddressType::Random),
            1 => Ok(AddressType::Public),
            _ => Err(ParseAddressTypeError::Invalid),
        }
    }
}

/// The 128-bit value denoted by a textual UUID, or `None` where the text is
/// not one of the accepted UUID formats.
pub uninterp spec fn uuid_parse_spec(s: Seq<char>) -> Option<u128>;

/// Relies on `uuid::Uuid::parse_str` and `uuid::Uuid::as_u128`: the 128-bit
/// value of a textual UUID in simple, hyphenated, urn or GUID form; the
/// result depends on the characters alone.
#[verifier::external_body]
fn parse_uuid(s: &str) -> (r: Option<u128>)
    ensures
        r == uuid_parse_spec(s@),
{
    match uuid::Uuid::parse_str(s) {
        Ok(u) => Some(u.as_u128()),
        Err(_) => None,
    }
}

/// The manufacturer-data entries of a sighting: each code narrowed to
/// sixteen bits, payloads and order kept.
pub open spec fn spec_manufacturer_entries(s: Seq<(i32, Vec<u8>)>) -> Seq<(u16, Seq<u8>)> {
    s.map_values(|p: (i32, Vec<u8>)| (p.0 as u16, p.1@))
}

/// The service-data entries of a sighting: exactly those whose key is
/// well-formed UUID text, in reported order.
pub open spec fn spec_service_data_entries(s: Seq<(String, Vec<u8>)>) -> Seq<(u128, Seq<u8>)>
    decreases s.len(),
{
    if s.len() == 0 {
        Seq::empty()
    } else {
        let rest = spec_service_data_entries(s.drop_last());
        match uuid_parse_spec(s.last().0@) {
            Some(u) => rest.push((u, s.last().1@)),
            None => rest,
        }
    }
}

/// The advertised services of a sighting: exactly those that are well-formed
/// UUID text, in reported order.
pub open spec fn spec_parsed_services(s: Seq<String>) -> Seq<u128>
    decreases s.len(),
{
    if s.len() == 0 {
        Seq::empty()
    } else {
        let rest = spec_parsed_services(s.drop_last());
        match uuid_parse_spec(s.last()@) {
            Some(u) => rest.push(u),
            None => rest,
        }
    }
}

/// The optional fields narrowed to sixteen bits, as the property bundle
/// stores them.
pub open spec fn spec_opt_i16(v: Option<i32>) -> Option<i16> {
    match v {
        Some(x) => Some(x as i16),
        None => None,
    }
}

/// The address type a sighting carries, if any.
pub open spec fn spec_opt_address_type(v: Option<i32>) -> Option<AddressType> {
    match v {
        Some(x) => spec_address_type(x),
        None => None,
    }
}

/// The property bundle denoted by a sighting whose identity parsed to
/// `address`.
pub open spec fn spec_scan_properties(scan: ScanResult, address: BDAddr) -> PropertiesView {
    PropertiesView {
        address,
        address_type: spec_opt_address_type(scan.addressType),
        local_name: spec_opt_name(scan.localName),
        tx_power_level: spec_opt_i16(scan.txPowerLevel),
        rssi: spec_opt_i16(scan.rssi),
        manufacturer_data: spec_manufacturer_entries(scan.manufacturerData@),
        service_data: spec_service_data_entries(scan.serviceData@),
        services: spec_parsed_services(scan.services@),
    }
}

/// Narrows every manufacturer code to sixteen bits, keeping payloads and
/// order.
fn manufacturer_entries(v: &Vec<(i32, Vec<u8>)>) -> (r: Vec<(u16, Vec<u8>)>)
    ensures
        crate::api::spec_entries16(r@) == spec_manufacturer_entries(v@),
{
    let mut r: Vec<(u16, Vec<u8>)> = Vec::new();
    let mut i: usize = 0;
    while i < v.len()
        invariant
            i <= v@.len(),
            crate::api::spec_entries16(r@) == spec_manufacturer_entries(v@.subrange(0, i as int)),
        decreases v@.len() - i,
    {
        let ghost prev = r@;
        let key: u16 = #[verifier::truncate] (v[i].0 as u16);
        let payload = copy_bytes(&v[i].1);
        r.push((key, payload));
        proof {
            assert(crate::api::spec_entries16(r@) =~= crate::api::spec_entries16(prev).push(
                (key, payload@),
            ));
            assert(spec_manufacturer_entries(v@.subrange(0, i as int)).push(
                (v@[i as int].0 as u16, v@[i as int].1@),
            ) =~= spec_manufacturer_entries(v@.subrange(0, i as int + 1)));
        }
        i = i + 1;
    }
    proof {
        assert(v@.subrange(0, v@.len() as int) =~= v@);
    }
    r
}

/// Keeps exactly the service-data entries whose key is well-formed UUID
/// text, in reported order.
fn service_data_entries(v: &Vec<(String, Vec<u8>)>) -> (r: Vec<(u128, Vec<u8>)>)
    ensures
        spec_entries128(r@) == spec_service_data_entries(v@),
{
    let mut r: Vec<(u128, Vec<u8>)> = Vec::new();
    let mut i: usize = 0;
    while i < v.len()
        invariant
            i <= v@.len(),
            spec_entries128(r@) == spec_service_data_entries(v@.subrange(0, i as int)),
        decreases v@.len() - i,
    {
        let ghost prev = r@;
        proof {
            assert(v@.subrange(0, i as int + 1).drop_last() =~= v@.subrange(0, i as int));
            assert(v@.subrange(0, i as int + 1).last() == v@[i as int]);
        }
        match parse_uuid(v[i].0.as_str()) {
            Some(u) => {
                let payload = copy_bytes(&v[i].1);
                r.push((u, payload));
                proof {
                    assert(spec_entries128(r@) =~= spec_entries128(prev).push((u, payload@)));
                }
            },
            None => {},
        }
        i = i + 1;
    }
    proof {
        assert(v@.subrange(0, v@.len() as int) =~= v@);
    }
    r
}

/// Keeps exactly the advertised services that are well-formed UUID text, in
/// reported order.
fn parsed_services(v: &Vec<String>) -> (r: Vec<u128>)
    ensures
        r@ == spec_parsed_services(v@),
{
    let mut r: Vec<u128> = Vec::new();
    let mut i: usize = 0;
    while i < v.len()
        invariant
            i <= v@.len(),
            r@ == spec_parsed_services(v@.subrange(0, i as int)),
        decreases v@.len() - i,
    {
        proof {
            assert(v@.subrange(0, i as int + 1).drop_last() =~= v@.subrange(0, i as int));
            assert(v@.subrange(0, i as int + 1).last() == v@[i as int]);
        }
        match parse_uuid(v[i].as_str()) {
            Some(u) => {
                r.push(u);
            },
            None => {},
        }
        i = i + 1;
    }
    proof {
        assert(v@.subrange(0, v@.len() as int) =~= v@);
    }
    r
}

impl ScanResult {
    /// Normalizes the sighting into a property bundle. Succeeds exactly when
    /// the identity string is a well-formed delimited address.
    pub fn into_properties(self) -> (r: Result<PeripheralProperties, ParseBDAddrError>)
        ensures
            match spec_parse_addr(encode_utf8(self.address@)) {
                Some(v) => r matches Ok(props) && props@ == spec_scan_properties(
                    self,
                    BDAddr { value: v },
                ) && props.address == (BDAddr { value: v }),
                None => r == Err::<PeripheralProperties, ParseBDAddrError>(
                    ParseBDAddrError::Invalid,
                ),
            },
    {
        let ghost orig = self;
        let address = match BDAddr::from_str_addr(self.address.as_str()) {
            Ok(a) => a,
            Err(_) => {
                return Err(ParseBDAddrError::Invalid);
            },
        };
        let address_type = match self.addressType {
            Some(code) => match AddressType::try_from(code) {
                Ok(t) => Some(t),
                Err(_) => None,
            },
            None => None,
        };
        let tx_power_level = match self.txPowerLevel {
            Some(x) => Some(#[verifier::truncate] (x as i16)),
            None => None,
        };
        let rssi = match self.rssi {
            Some(x) => Some(#[verifier::truncate] (x as i16)),
            None => None,
        };
        let manufacturer_data = manufacturer_entries(&self.manufacturerData);
        let service_data = service_data_entries(&self.serviceData);
        let services = parsed_services(&self.services);
        let props = PeripheralProperties {
            address,
            address_type,
            local_name: self.localName,
            tx_power_level,
            rssi,
            manufacturer_data,
            service_data,
            services,
        };
        proof {
            assert(props@ =~= spec_scan_properties(orig, address));
        }
        Ok(props)
    }

    /// Splits the sighting into its identity and, where the payload is
    /// usable, its property bundle. Fails exactly when the identity string
    /// is malformed.
    pub fn into_sighting(self) -> (r: Result<
        (BDAddr, Option<PeripheralProperties>),
        ParseBDAddrError,
    >)
        ensures
            match spec_parse_addr(encode_utf8(self.address@)) {
                Some(v) => r matches Ok((a, p)) && (a == (BDAddr { value: v }) && (p matches Some(
                    props,
                ) && props@ == spec_scan_properties(self, BDAddr { value: v }))),
                None => r == Err::<(BDAddr, Option<PeripheralProperties>), ParseBDAddrError>(
                    ParseBDAddrError::Invalid,
                ),
            },
    {
        let address = match BDAddr::from_str_addr(self.address.as_str()) {
            Ok(a) => a,
            Err(_) => {
                return Err(ParseBDAddrError::Invalid);
            },
        };
        let properties = match self.into_properties() {
            Ok(p) => Some(p),
            Err(_) => None,
        };
        Ok((address, properties))
    }
}

} // verus!
