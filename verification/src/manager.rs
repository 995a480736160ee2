//! The event bridge: one publication history, many independent subscribers.
//!
//! The manager owns the registry and a broadcast of [`CentralEvent`]s. Every
//! event published is appended to a single history; each subscriber holds the
//! still-undelivered window of that history, bounded by
//! [`EVENT_QUEUE_CAPACITY`]. A subscriber that falls behind loses its oldest
//! undelivered events rather than stalling the publisher — an accepted,
//! documented lossy-delivery trade-off.

use vstd::prelude::*;

verus! {

use std::collections::VecDeque;

use crate::addr::BDAddr;
use crate::api::CentralEvent;
use crate::api::Error;
use crate::api::EventView;
use crate::api::PeripheralProperties;
use crate::peripheral::Peripheral;
use crate::peripheral::PeripheralId;
use crate::peripheral::PeripheralView;
use crate::registry::PeripheralRegistry;

/// The most events a subscriber may hold undelivered; beyond it, its oldest
/// undelivered event is discarded.
pub const EVENT_QUEUE_CAPACITY: usize = 16;

/// The values of a queue of events, oldest first.
pub open spec fn buf_views(s: Seq<CentralEvent>) -> Seq<EventView> {
    s.map_values(|e: CentralEvent| e@)
}

/// One subscription: its undelivered events plus the bookkeeping tying it to
/// the publication history.
pub struct Subscriber {
    /// Undelivered events, oldest first.
    pub buf: VecDeque<CentralEvent>,
    /// How many events had been published when the subscription was created.
    pub created_at: Ghost<int>,
    /// The events this subscriber has taken, in the order it took them.
    pub taken: Ghost<Seq<EventView>>,
    /// How many undelivered events overflow has discarded.
    pub lost: Ghost<int>,
}

impl Subscriber {
    /// Consistency with the publication history: the undelivered events are
    /// the latest window of the history; everything published since creation
    /// was taken, lost or is still pending; and while nothing was lost, what
    /// was taken is exactly the history from the creation point on.
    pub open spec fn wf(self, published: Seq<EventView>) -> bool {
        &&& 0 <= self.created_at@
        &&& 0 <= self.lost@
        &&& self.created_at@ + self.lost@ + self.taken@.len() + self.buf@.len() == published.len()
        &&& buf_views(self.buf@) == published.subrange(
            published.len() - self.buf@.len(),
            published.len() as int,
        )
        &&& self.buf@.len() <= EVENT_QUEUE_CAPACITY
        &&& (self.lost@ == 0 ==> self.taken@ == published.subrange(
            self.created_at@,
            self.created_at@ + self.taken@.len(),
        ))
    }

    /// Queues one more event, discarding the oldest undelivered one if the
    /// buffer is full.
    fn deliver(&mut self, event: CentralEvent)
        ensures
            final(self).created_at == old(self).created_at,
            final(self).taken == old(self).taken,
            old(self).buf@.len() < EVENT_QUEUE_CAPACITY ==> final(self).buf@ == old(
                self,
            ).buf@.push(event) && final(self).lost == old(self).lost,
            old(self).buf@.len() >= EVENT_QUEUE_CAPACITY ==> final(self).buf@ == old(
                self,
            ).buf@.subrange(1, old(self).buf@.len() as int).push(event) && final(self).lost@
                == old(self).lost@ + 1,
    {
        if self.buf.len() >= EVENT_QUEUE_CAPACITY {
            let _ = self.buf.pop_front();
            self.lost = Ghost(self.lost@ + 1);
        }
        self.buf.push_back(event);
    }
}

/// The manager: the registry of known devices and the event bridge that
/// multiplexes state changes to every subscriber.
pub struct AdapterManager {
    pub registry: PeripheralRegistry,
    pub subscribers: Vec<Subscriber>,
    /// Every event published over the manager's lifetime, in publication
    /// order.
    pub published: Ghost<Seq<EventView>>,
}

impl AdapterManager {
    /// The publication history.
    pub open spec fn history(self) -> Seq<EventView> {
        self.published@
    }

    /// How many subscriptions exist.
    pub open spec fn sub_count(self) -> int {
        self.subscribers@.len() as int
    }

    /// The undelivered events of subscription `j`, oldest first.
    pub open spec fn pending(self, j: int) -> Seq<EventView> {
        buf_views(self.subscribers@[j].buf@)
    }

    /// The events subscription `j` has taken, in the order it took them.
    pub open spec fn taken(self, j: int) -> Seq<EventView> {
        self.subscribers@[j].taken@
    }

    /// The publication count at which subscription `j` was created.
    pub open spec fn created_at(self, j: int) -> int {
        self.subscribers@[j].created_at@
    }

    /// How many events subscription `j` lost to overflow.
    pub open spec fn lost(self, j: int) -> int {
        self.subscribers@[j].lost@
    }

    /// The records the registry holds.
    pub open spec fn records(self) -> Seq<PeripheralView> {
        self.registry.records()
    }

    /// Whether some record carries this identity.
    pub open spec fn contains_addr(self, address: BDAddr) -> bool {
        self.registry.contains_addr(address)
    }

    /// The record carrying this identity; meaningful only where one exists.
    pub open spec fn record_of(self, address: BDAddr) -> PeripheralView {
        self.registry.record_of(address)
    }

    /// A registry invariant plus every subscription consistent with the
    /// publication history.
    pub open spec fn wf(self) -> bool {
        &&& self.registry.wf()
        &&& forall|j: int|
            0 <= j < self.sub_count() ==> #[trigger] self.subscribers@[j].wf(self.history())
    }

    /// A fresh manager: no known devices, no history, no subscribers.
    pub fn new() -> (r: Self)
        ensures
            r.wf(),
            r.records() == Seq::<PeripheralView>::empty(),
            r.history() == Seq::<EventView>::empty(),
            r.sub_count() == 0,
    {
        AdapterManager {
            registry: PeripheralRegistry::new(),
            subscribers: Vec::new(),
            published: Ghost(Seq::empty()),
        }
    }

    /// Opens a new, independent subscription. It starts live: nothing
    /// published earlier is replayed, and nothing is pending yet.
    pub fn subscribe(&mut self) -> (sub: usize)
        requires
            old(self).wf(),
        ensures
            final(self).wf(),
            sub as int == old(self).sub_count(),
            final(self).sub_count() == old(self).sub_count() + 1,
            final(self).history() == old(self).history(),
            final(self).registry == old(self).registry,
            final(self).created_at(sub as int) == old(self).history().len(),
            final(self).pending(sub as int) == Seq::<EventView>::empty(),
            final(self).taken(sub as int) == Seq::<EventView>::empty(),
            final(self).lost(sub as int) == 0,
            forall|j: int|
                0 <= j < old(self).sub_count() ==> final(self).subscribers@[j] == old(
                    self,
                ).subscribers@[j],
    {
        let sub = self.subscribers.len();
        let s = Subscriber {
            buf: VecDeque::new(),
            created_at: Ghost(self.published@.len() as int),
            taken: Ghost(Seq::empty()),
            lost: Ghost(0),
        };
        self.subscribers.push(s);
        proof {
            assert(buf_views(self.subscribers@[sub as int].buf@) =~= Seq::<EventView>::empty());
            assert(self.history().subrange(
                self.history().len() as int,
                self.history().len() as int,
            ) =~= Seq::<EventView>::empty());
            assert(self.subscribers@[sub as int].taken@ =~= self.history().subrange(
                self.history().len() as int,
                self.history().len() as int,
            ));
            assert forall|j: int| 0 <= j < self.sub_count() implies #[trigger] self.subscribers@[j].wf(self.history()) by {
                if j < old(self).sub_count() {
                    assert(self.subscribers@[j] == old(self).subscribers@[j]);
                    assert(old(self).subscribers@[j].wf(old(self).history()));
                } else {
                    assert(self.subscribers@[j] == s);
                }
            }
        }
        sub
    }

    /// Publishes one event: appends it to the history and queues it for
    /// every subscriber, dropping a lagging subscriber's oldest undelivered
    /// event rather than blocking.
    pub fn emit(&mut self, event: CentralEvent)
        requires
            old(self).wf(),
        ensures
            final(self).wf(),
            final(self).history() == old(self).history().push(event@),
            final(self).registry == old(self).registry,
            final(self).sub_count() == old(self).sub_count(),
            forall|j: int|
                0 <= j < old(self).sub_count() ==> final(self).created_at(j) == old(
                    self,
                ).created_at(j) && final(self).taken(j) == old(self).taken(j),
            forall|j: int|
                0 <= j < old(self).sub_count() ==> #[trigger] final(self).pending(j) == (
                if old(self).pending(j).len() < EVENT_QUEUE_CAPACITY {
                    old(self).pending(j).push(event@)
                } else {
                    old(self).pending(j).subrange(1, old(self).pending(j).len() as int).push(
                        event@,
                    )
                }),
            forall|j: int|
                0 <= j < old(self).sub_count() ==> #[trigger] final(self).lost(j) == (
                if old(self).pending(j).len() < EVENT_QUEUE_CAPACITY {
                    old(self).lost(j)
                } else {
                    old(self).lost(j) + 1
                }),
    {
        self.published = Ghost(self.published@.push(event@));
        let ghost hist = self.published@;
        let mut j: usize = 0;
        while j < self.subscribers.len()
            invariant
                j <= self.subscribers@.len(),
                self.subscribers@.len() == old(self).subscribers@.len(),
                self.registry == old(self).registry,
                self.published@ == old(self).published@.push(event@),
                hist == self.published@,
                old(self).wf(),
                forall|k: int|
                    j <= k < self.subscribers@.len() ==> #[trigger] self.subscribers@[k] == old(
                        self,
                    ).subscribers@[k],
                forall|k: int|
                    0 <= k < j ==> #[trigger] self.subscribers@[k].wf(hist),
                forall|k: int|
                    #![trigger self.subscribers@[k]]
                    0 <= k < j ==> {
                        let s0 = old(self).subscribers@[k];
                        let s1 = self.subscribers@[k];
                        &&& s1.created_at == s0.created_at
                        &&& s1.taken == s0.taken
                        &&& (s0.buf@.len() < EVENT_QUEUE_CAPACITY ==> buf_views(s1.buf@)
                            == buf_views(s0.buf@).push(event@) && s1.lost == s0.lost)
                        &&& (s0.buf@.len() >= EVENT_QUEUE_CAPACITY ==> buf_views(s1.buf@)
                            == buf_views(s0.buf@).subrange(1, s0.buf@.len() as int).push(event@)
                            && s1.lost@ == s0.lost@ + 1)
                    },
            decreases self.subscribers@.len() - j,
        {
            let ghost s0 = self.subscribers@[j as int];
            let ghost ph = old(self).published@;
            let ev = event.duplicate();
            let s = &mut self.subscribers[j];
            s.deliver(ev);
            proof {
                let s1 = self.subscribers@[j as int];
                assert(s0 == old(self).subscribers@[j as int]);
                assert(old(self).subscribers@[j as int].wf(old(self).history()));
                assert(s0.wf(ph));
                let n = s0.buf@.len() as int;
                let c = s0.created_at@;
                let t = s0.taken@.len() as int;
                if n < EVENT_QUEUE_CAPACITY {
                    assert(buf_views(s1.buf@) =~= buf_views(s0.buf@).push(event@));
                    assert(buf_views(s0.buf@).push(event@) =~= hist.subrange(
                        hist.len() - (n + 1),
                        hist.len() as int,
                    ));
                } else {
                    assert(buf_views(s1.buf@) =~= buf_views(s0.buf@).subrange(1, n).push(event@));
                    assert(buf_views(s0.buf@).subrange(1, n).push(event@) =~= hist.subrange(
                        hist.len() - n,
                        hist.len() as int,
                    ));
                }
                if s1.lost@ == 0 {
                    assert(s1.taken@ =~= hist.subrange(c, c + t));
                }
                assert(s1.wf(hist));
            }
            j = j + 1;
        }
    }

    /// Hands subscription `sub` its oldest undelivered event, if any: always
    /// the next event of the publication history after everything the
    /// subscription took or lost so far.
    pub fn next_event(&mut self, sub: usize) -> (r: Option<CentralEvent>)
        requires
            old(self).wf(),
        ensures
            final(self).wf(),
            final(self).history() == old(self).history(),
            final(self).registry == old(self).registry,
            final(self).sub_count() == old(self).sub_count(),
            forall|j: int|
                0 <= j < old(self).sub_count() && j != sub as int ==> final(self).subscribers@[j]
                    == old(self).subscribers@[j],
            sub as int >= old(self).sub_count() ==> r is None && *final(self) == *old(self),
            (sub as int) < old(self).sub_count() ==> match r {
                Some(e) => {
                    &&& old(self).pending(sub as int).len() > 0
                    &&& e@ == old(self).pending(sub as int)[0]
                    &&& e@ == old(self).history()[old(self).created_at(sub as int) + old(
                        self,
                    ).lost(sub as int) + old(self).taken(sub as int).len()]
                    &&& final(self).pending(sub as int) == old(self).pending(
                        sub as int,
                    ).drop_first()
                    &&& final(self).taken(sub as int) == old(self).taken(sub as int).push(e@)
                    &&& final(self).lost(sub as int) == old(self).lost(sub as int)
                    &&& final(self).created_at(sub as int) == old(self).created_at(sub as int)
                },
                None => {
                    &&& old(self).pending(sub as int).len() == 0
                    &&& final(self).pending(sub as int) == old(self).pending(sub as int)
                    &&& final(self).taken(sub as int) == old(self).taken(sub as int)
                    &&& final(self).lost(sub as int) == old(self).lost(sub as int)
                    &&& final(self).created_at(sub as int) == old(self).created_at(sub as int)
                },
            },
    {
        if sub >= self.subscribers.len() {
            return None;
        }
        let ghost s0 = self.subscribers@[sub as int];
        let ghost hist = self.published@;
        let popped = {
            let s = &mut self.subscribers[sub];
            let p = s.buf.pop_front();
            match &p {
                Some(e) => {
                    s.taken = Ghost(s.taken@.push(e@));
                },
                None => {},
            }
            p
        };
        match popped {
            Some(e) => {
                proof {
                    let s1 = self.subscribers@[sub as int];
                    assert(old(self).subscribers@[sub as int].wf(old(self).history()));
                    assert(s0.wf(hist));
                    let n = s0.buf@.len() as int;
                    let c = s0.created_at@;
                    let t = s0.taken@.len() as int;
                    assert(e@ == buf_views(s0.buf@)[0]);
                    assert(e@ == hist[hist.len() - n]);
                    assert(c + s0.lost@ + t + n == hist.len());
                    assert(buf_views(s1.buf@) =~= buf_views(s0.buf@).drop_first());
                    assert(buf_views(s1.buf@) =~= hist.subrange(
                        hist.len() - (n - 1),
                        hist.len() as int,
                    ));
                    if s0.lost@ == 0 {
                        assert(e@ == hist[c + t]);
                        assert(s1.taken@ =~= hist.subrange(c, c + t + 1));
                    }
                    assert(s1.wf(hist));
                    assert forall|j: int| 0 <= j < self.sub_count() implies
                        #[trigger] self.subscribers@[j].wf(self.history()) by {
                        if j != sub as int {
                            assert(self.subscribers@[j] == old(self).subscribers@[j]);
                            assert(old(self).subscribers@[j].wf(old(self).history()));
                        }
                    }
                }
                Some(e)
            },
            None => {
                proof {
                    assert(old(self).subscribers@[sub as int].wf(old(self).history()));
                    assert(s0.wf(hist));
                    let s1 = self.subscribers@[sub as int];
                    assert(s1.buf@ == s0.buf@);
                    assert(buf_views(s0.buf@) =~= Seq::<EventView>::empty());
                    assert forall|j: int| 0 <= j < self.sub_count() implies
                        #[trigger] self.subscribers@[j].wf(self.history()) by {
                        if j != sub as int {
                            assert(self.subscribers@[j] == old(self).subscribers@[j]);
                            assert(old(self).subscribers@[j].wf(old(self).history()));
                        } else {
                            assert(self.subscribers@[j].wf(self.history()));
                        }
                    }
                }
                None
            },
        }
    }

    /// A snapshot of the record carrying this identity, if any.
    pub fn peripheral(&self, id: &PeripheralId) -> (r: Option<Peripheral>)
        requires
            self.wf(),
        ensures
            match r {
                Some(p) => self.contains_addr(id.0) && p@ == self.record_of(id.0) && p@.address
                    == id.0,
                None => !self.contains_addr(id.0),
            },
    {
        self.registry.lookup(id.0)
    }

    /// A snapshot of every known record, insertion order kept.
    pub fn peripherals(&self) -> (r: Vec<Peripheral>)
        ensures
            r@.map_values(|p: Peripheral| p@) == self.records(),
    {
        self.registry.list()
    }

    /// Registers an identity, creating an empty record if none exists;
    /// publishes nothing.
    pub fn add_peripheral(&mut self, address: BDAddr) -> (r: Peripheral)
        requires
            old(self).wf(),
        ensures
            final(self).wf(),
            final(self).history() == old(self).history(),
            final(self).subscribers == old(self).subscribers,
            final(self).contains_addr(address),
            r@ == final(self).record_of(address),
            r@.address == address,
            old(self).contains_addr(address) ==> final(self).registry == old(self).registry && r@
                == old(self).record_of(address),
            !old(self).contains_addr(address) ==> final(self).records() == old(
                self,
            ).records().push(PeripheralView { address, properties: None }) && r@
                == (PeripheralView { address, properties: None }),
    {
        let r = self.registry.insert_if_absent(address);
        proof {
            assert forall|j: int| 0 <= j < self.sub_count() implies #[trigger] self.subscribers@[j].wf(self.history()) by {
                assert(self.subscribers@[j] == old(self).subscribers@[j]);
                assert(old(self).subscribers@[j].wf(old(self).history()));
            }
        }
        r
    }

    /// Replaces the stored property bundle of a known identity; publishes
    /// nothing and reports `DeviceNotFound` for an unknown one.
    pub fn update_properties(&mut self, address: BDAddr, properties: PeripheralProperties) -> (r:
        Result<(), Error>)
        requires
            old(self).wf(),
        ensures
            final(self).wf(),
            final(self).history() == old(self).history(),
            final(self).subscribers == old(self).subscribers,
            old(self).contains_addr(address) ==> r == Ok::<(), Error>(()) && final(self).records()
                == old(self).records().update(
                old(self).registry.index_of(address),
                PeripheralView { address, properties: Some(properties@) },
            ),
            !old(self).contains_addr(address) ==> r == Err::<(), Error>(Error::DeviceNotFound)
                && *final(self) == *old(self),
    {
        let r = self.registry.update_properties(address, properties);
        proof {
            assert forall|j: int| 0 <= j < self.sub_count() implies #[trigger] self.subscribers@[j].wf(self.history()) by {
                assert(self.subscribers@[j] == old(self).subscribers@[j]);
                assert(old(self).subscribers@[j].wf(old(self).history()));
            }
        }
        r
    }
}

/// Law: while nothing was lost to overflow, a subscription's taken and
/// pending events, concatenated, are exactly the events published after its
/// creation, in publication order — and what it took is exactly the history
/// from the creation point on. A subscription created later thus never
/// observes an earlier event.
pub proof fn lemma_subscriber_delivery(m: AdapterManager, j: int)
    requires
        m.wf(),
        0 <= j < m.sub_count(),
        m.lost(j) == 0,
    ensures
        m.taken(j) + m.pending(j) == m.history().subrange(
            m.created_at(j),
            m.history().len() as int,
        ),
        m.taken(j) == m.history().subrange(m.created_at(j), m.created_at(j) + m.taken(j).len()),
{
    assert(m.subscribers@[j].wf(m.history()));
    assert(m.taken(j) + m.pending(j) =~= m.history().subrange(
        m.created_at(j),
        m.history().len() as int,
    ));
}

} // verus!
