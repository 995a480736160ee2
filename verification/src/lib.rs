//! A peripheral registry and event bridge for wireless device discovery.
//!
//! An external discovery source reports sightings of nearby devices; the
//! [`adapter::Adapter`] normalizes each sighting, keeps a deduplicated
//! registry of known peripherals, and publishes a stream of discrete
//! [`api::CentralEvent`]s to any number of independent subscribers.

pub mod addr;
pub mod objects;
pub mod api;
pub mod peripheral;
pub mod registry;
pub mod manager;
pub mod adapter;

use vstd::prelude::*;

verus! {

use crate::api::EventView;
use crate::peripheral::PeripheralView;

/// Builds the one adapter handle of a session: an empty registry, an empty
/// publication history and no subscribers. Callers construct it once at
/// process start and pass it to every consumer.
pub fn init() -> (r: adapter::Adapter)
    ensures
        r.wf(),
        r.records() == Seq::<PeripheralView>::empty(),
        r.history() == Seq::<EventView>::empty(),
        r.sub_count() == 0,
{
    adapter::Adapter::new()
}

} // verus!
