//! Device records: the stable identity of a peripheral and the properties
//! most recently reported for it.
//!
//! A record is owned by the registry; every read hands out a snapshot copy,
//! so callers never observe a record mutating mid-read. Connection-level
//! operations are delegated to the external device driver and are not part
//! of this library: they fail with [`Error::DeviceNotFound`].

use vstd::prelude::*;

verus! {

use crate::addr::BDAddr;
use crate::api::Error;
use crate::api::PeripheralProperties;
use crate::api::PropertiesView;

/// The stable identity of a peripheral.
#[derive(Clone, Copy, PartialEq, Eq, Structural, Hash, Debug)]
pub struct PeripheralId(pub BDAddr);

/// One known device: its immutable identity and the property bundle of its
/// most recent sighting, if any.
#[derive(Debug, PartialEq, Eq)]
pub struct Peripheral {
    pub address: BDAddr,
    pub properties: Option<PeripheralProperties>,
}

/// The mathematical value of a device record.
#[verifier::ext_equal]
pub ghost struct PeripheralView {
    pub address: BDAddr,
    pub properties: Option<PropertiesView>,
}

/// The value of an optional property bundle.
pub open spec fn spec_opt_properties(p: Option<PeripheralProperties>) -> Option<PropertiesView> {
    match p {
        Some(props) => Some(props@),
        None => None,
    }
}

impl View for Peripheral {
    type V = PeripheralView;

    open spec fn view(&self) -> PeripheralView {
        PeripheralView { address: self.address, properties: spec_opt_properties(self.properties) }
    }
}

impl Peripheral {
    /// A fresh record for an identity with no sighting yet.
    pub fn new(address: BDAddr) -> (r: Self)
        ensures
            r@ == (PeripheralView { address, properties: None }),
    {
        Peripheral { address, properties: None }
    }

    /// The unique identifier of the peripheral.
    pub fn id(&self) -> (r: PeripheralId)
        ensures
            r == PeripheralId(self@.address),
    {
        PeripheralId(self.address)
    }

    /// The address of the peripheral.
    pub fn address(&self) -> (r: BDAddr)
        ensures
            r == self@.address,
    {
        self.address
    }

    /// The properties most recently reported for the peripheral, as a
    /// snapshot copy.
    pub fn properties(&self) -> (r: Option<PeripheralProperties>)
        ensures
            spec_opt_properties(r) == self@.properties,
    {
        match &self.properties {
            Some(p) => Some(p.snapshot()),
            None => None,
        }
    }

    /// Replaces the stored bundle with the one a new sighting carries.
    pub fn report_properties(&mut self, properties: PeripheralProperties)
        ensures
            final(self)@ == (PeripheralView {
                address: old(self)@.address,
                properties: Some(properties@),
            }),
    {
        self.properties = Some(properties);
    }

    /// A copy of the whole record, value for value.
    pub fn snapshot(&self) -> (r: Self)
        ensures
            r@ == self@,
    {
        Peripheral { address: self.address, properties: self.properties() }
    }

    /// Connecting is delegated to the external device driver and not
    /// supported in this library.
    pub fn connect(&self) -> (r: Result<(), Error>)
        ensures
            r == Err::<(), Error>(Error::DeviceNotFound),
    {
        Err(Error::DeviceNotFound)
    }

    /// Connection state is delegated to the external device driver and not
    /// supported in this library.
    pub fn is_connected(&self) -> (r: Result<bool, Error>)
        ensures
            r == Err::<bool, Error>(Error::DeviceNotFound),
    {
        Err(Error::DeviceNotFound)
    }

    /// Disconnecting is delegated to the external device driver and not
    /// supported in this library.
    pub fn disconnect(&self) -> (r: Result<(), Error>)
        ensures
            r == Err::<(), Error>(Error::DeviceNotFound),
    {
        Err(Error::DeviceNotFound)
    }

    /// Service discovery is delegated to the external device driver and not
    /// supported in this library.
    pub fn discover_services(&self) -> (r: Result<(), Error>)
        ensures
            r == Err::<(), Error>(Error::DeviceNotFound),
    {
        Err(Error::DeviceNotFound)
    }
}

} // verus!
