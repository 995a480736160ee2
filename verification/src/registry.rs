//! The peripheral registry: the single source of truth for which devices are
//! known and what was last reported about each.
//!
//! The registry holds at most one record per identity. Reads hand out
//! snapshot copies; writes replace a record's property bundle wholesale.

use vstd::prelude::*;

verus! {

use crate::addr::BDAddr;
use crate::api::Error;
use crate::api::PeripheralProperties;
use crate::peripheral::Peripheral;
use crate::peripheral::PeripheralView;

/// The canonical set of known devices, keyed by identity.
pub struct PeripheralRegistry {
    pub items: Vec<Peripheral>,
}

impl PeripheralRegistry {
    /// The records the registry holds, in insertion order.
    pub open spec fn records(self) -> Seq<PeripheralView> {
        self.items@.map_values(|p: Peripheral| p@)
    }

    /// At most one record per identity.
    pub open spec fn wf(self) -> bool {
        forall|i: int, j: int|
            0 <= i < j < self.records().len() ==> self.records()[i].address
                != self.records()[j].address
    }

    /// Whether some record carries this identity.
    pub open spec fn contains_addr(self, address: BDAddr) -> bool {
        exists|i: int|
            0 <= i < self.records().len() && self.records()[i].address == address
    }

    /// The position of the record carrying this identity; meaningful only
    /// where one exists, and then unique.
    pub open spec fn index_of(self, address: BDAddr) -> int {
        choose|i: int| 0 <= i < self.records().len() && self.records()[i].address == address
    }

    /// The record carrying this identity; meaningful only where one exists.
    pub open spec fn record_of(self, address: BDAddr) -> PeripheralView {
        self.records()[self.index_of(address)]
    }

    /// An empty registry.
    pub fn new() -> (r: Self)
        ensures
            r.wf(),
            r.records() == Seq::<PeripheralView>::empty(),
    {
        let r = PeripheralRegistry { items: Vec::new() };
        proof {
            assert(r.records() =~= Seq::<PeripheralView>::empty());
        }
        r
    }

    /// A snapshot copy of the record carrying this identity, if any.
    pub fn lookup(&self, address: BDAddr) -> (r: Option<Peripheral>)
        requires
            self.wf(),
        ensures
            match r {
                Some(p) => self.contains_addr(address) && p@ == self.record_of(address)
                    && p@.address == address,
                None => !self.contains_addr(address),
            },
    {
        let mut i: usize = 0;
        while i < self.items.len()
            invariant
                i <= self.items@.len(),
                self.wf(),
                forall|k: int| 0 <= k < i ==> self.records()[k].address != address,
            decreases self.items@.len() - i,
        {
            if self.items[i].address == address {
                let p = self.items[i].snapshot();
                proof {
                    assert(self.records()[i as int].address == address);
                    let j = self.index_of(address);
                    assert(0 <= j < self.records().len() && self.records()[j].address == address);
                    assert(j == i as int);
                }
                return Some(p);
            }
            i = i + 1;
        }
        None
    }

    /// A snapshot of every record, insertion order kept.
    pub fn list(&self) -> (r: Vec<Peripheral>)
        ensures
            r@.map_values(|p: Peripheral| p@) == self.records(),
    {
        let mut r: Vec<Peripheral> = Vec::new();
        let mut i: usize = 0;
        while i < self.items.len()
            invariant
                i <= self.items@.len(),
                r@.map_values(|p: Peripheral| p@) == self.records().subrange(0, i as int),
            decreases self.items@.len() - i,
        {
            let ghost prev = r@;
            let p = self.items[i].snapshot();
            r.push(p);
            proof {
                assert(r@.map_values(|q: Peripheral| q@) =~= prev.map_values(
                    |q: Peripheral| q@,
                ).push(p@));
                assert(self.records().subrange(0, i as int).push(self.records()[i as int])
                    =~= self.records().subrange(0, i as int + 1));
            }
            i = i + 1;
        }
        proof {
            assert(self.records().subrange(0, self.records().len() as int) =~= self.records());
        }
        r
    }

    /// Creates a record with empty properties if none carries this identity;
    /// returns a snapshot of the existing or newly created record.
    /// Idempotent.
    pub fn insert_if_absent(&mut self, address: BDAddr) -> (r: Peripheral)
        requires
            old(self).wf(),
        ensures
            final(self).wf(),
            final(self).contains_addr(address),
            r@ == final(self).record_of(address),
            r@.address == address,
            old(self).contains_addr(address) ==> *final(self) == *old(self) && r@ == old(
                self,
            ).record_of(address),
            !old(self).contains_addr(address) ==> final(self).records() == old(
                self,
            ).records().push(PeripheralView { address, properties: None }) && r@
                == (PeripheralView { address, properties: None }),
    {
        match self.lookup(address) {
            Some(p) => p,
            None => {
                let ghost prev = self.records();
                let fresh = Peripheral::new(address);
                let r = fresh.snapshot();
                self.items.push(fresh);
                proof {
                    assert(self.records() =~= prev.push(
                        PeripheralView { address, properties: None },
                    ));
                    assert forall|i: int, j: int|
                        0 <= i < j < self.records().len() implies self.records()[i].address
                        != self.records()[j].address by {
                        if j == self.records().len() - 1 {
                            assert(self.records()[i] == prev[i]);
                        }
                    }
                    let k = self.index_of(address);
                    assert(self.records()[self.records().len() - 1].address == address);
                    assert(0 <= k < self.records().len() && self.records()[k].address == address);
                    assert(k == self.records().len() - 1);
                }
                r
            },
        }
    }

    /// Replaces the stored property bundle of the record carrying this
    /// identity; reports `DeviceNotFound`, and changes nothing, where the
    /// identity is unknown.
    pub fn update_properties(&mut self, address: BDAddr, properties: PeripheralProperties) -> (r:
        Result<(), Error>)
        requires
            old(self).wf(),
        ensures
            final(self).wf(),
            old(self).contains_addr(address) ==> r == Ok::<(), Error>(()) && final(self).records()
                == old(self).records().update(
                old(self).index_of(address),
                PeripheralView { address, properties: Some(properties@) },
            ),
            !old(self).contains_addr(address) ==> r == Err::<(), Error>(Error::DeviceNotFound)
                && *final(self) == *old(self),
    {
        let mut i: usize = 0;
        while i < self.items.len()
            invariant
                i <= self.items@.len(),
                self == old(self),
                old(self).wf(),
                forall|k: int| 0 <= k < i ==> self.records()[k].address != address,
            decreases self.items@.len() - i,
        {
            if self.items[i].address == address {
                proof {
                    assert(self.records()[i as int].address == address);
                    let j = old(self).index_of(address);
                    assert(0 <= j < old(self).records().len() && old(self).records()[j].address
                        == address);
                    assert(j == i as int);
                }
                let ghost prev = self.records();
                let elem = &mut self.items[i];
                elem.report_properties(properties);
                proof {
                    assert(self.records() =~= prev.update(
                        i as int,
                        PeripheralView { address, properties: Some(properties@) },
                    ));
                    assert forall|a: int, b: int|
                        0 <= a < b < self.records().len() implies self.records()[a].address
                        != self.records()[b].address by {
                        assert(self.records()[a].address == prev[a].address);
                        assert(self.records()[b].address == prev[b].address);
                    }
                }
                return Ok(());
            }
            i = i + 1;
        }
        Err(Error::DeviceNotFound)
    }
}

/// Law: the registry holds at most one record per identity — two distinct
/// records always carry distinct identities.
pub proof fn lemma_at_most_one_record(r: PeripheralRegistry, i: int, j: int)
    requires
        r.wf(),
        0 <= i < r.records().len(),
        0 <= j < r.records().len(),
        i != j,
    ensures
        r.records()[i].address != r.records()[j].address,
{
}

} // verus!
