//! Relay-set bookkeeping, fan-out planning, and cross-endpoint query merging.
//!
//! The facade owns the set of relay addresses (at most one handle per
//! address) and the active subscription-filter set. Every fan-out operation
//! acts on a point-in-time snapshot of the relay set; the functions here
//! decide and plan, and the embedding runtime performs the endpoint I/O
//! against the returned snapshot.

use vstd::prelude::*;

use crate::message::{ClientMessage, Event, EventId, Filter, RelayUrl};

verus! {

/// Connection-layer error reported by a relay endpoint; opaque to this core,
/// propagated verbatim from single-target operations.
#[derive(Clone, Copy, PartialEq, Eq, Structural, Debug)]
pub struct RelayError(pub u64);

/// The pool's error taxonomy.
#[derive(Clone, Copy, PartialEq, Eq, Structural, Debug)]
pub enum Error {
    /// A relay endpoint's connection-layer error, propagated verbatim.
    Relay(RelayError),
    /// A broadcast-style send was attempted with zero relays; the call
    /// aborts before any delivery attempt.
    NoRelayConnected,
    /// A single-target operation referenced an unregistered address; the
    /// call aborts before any delivery attempt.
    RelayNotFound,
}

/// Everything a broadcast-style send decides: the event to pre-register on
/// the inbound channel (when the command publishes one), then the snapshot
/// of relay addresses to attempt delivery to, each independently and
/// best-effort.
pub struct SendPlan {
    /// When the command publishes an event, that event: its identifier is
    /// enqueued as pre-registered before any delivery, so a later echo from
    /// a relay is recognized as a duplicate.
    pub pre_register: Option<Event>,
    /// Point-in-time snapshot of the relay set to deliver to.
    pub targets: Vec<RelayUrl>,
}

/// What adding an address to the relay set does: a no-op when the address is
/// already present, otherwise an append.
pub open spec fn spec_add_relay(s: Seq<RelayUrl>, url: RelayUrl) -> Seq<RelayUrl> {
    if s.contains(url) {
        s
    } else {
        s.push(url)
    }
}

/// The event a broadcast-style send pre-registers: the published event when
/// the command is a publish, nothing otherwise.
pub open spec fn spec_pre_register(msg: ClientMessage) -> Option<Event> {
    match msg {
        ClientMessage::Event(event) => Some(event),
        ClientMessage::Other(_) => None,
    }
}

/// Whether some event in `s` has identifier `id`.
pub open spec fn contains_id(s: Seq<Event>, id: EventId) -> bool {
    exists|i: int| 0 <= i < s.len() && s[i].id == id
}

/// First-seen-wins accumulation of one event: a duplicate identifier leaves
/// the accumulated list unchanged, a new one is appended.
pub open spec fn spec_merge_event(acc: Seq<Event>, event: Event) -> Seq<Event> {
    if contains_id(acc, event.id) {
        acc
    } else {
        acc.push(event)
    }
}

/// First-seen-wins accumulation of one endpoint's result batch, in order.
pub open spec fn spec_merge_batch(acc: Seq<Event>, batch: Seq<Event>) -> Seq<Event>
    decreases batch.len(),
{
    if batch.len() == 0 {
        acc
    } else {
        spec_merge_event(spec_merge_batch(acc, batch.drop_last()), batch.last())
    }
}

/// First-seen-wins accumulation of every endpoint's result batch, endpoint
/// by endpoint in order.
pub open spec fn spec_merge_batches(acc: Seq<Event>, batches: Seq<Seq<Event>>) -> Seq<Event>
    decreases batches.len(),
{
    if batches.len() == 0 {
        acc
    } else {
        spec_merge_batch(spec_merge_batches(acc, batches.drop_last()), batches.last())
    }
}

/// The mathematical view of a list of per-endpoint result batches.
pub open spec fn batches_view(batches: Seq<Vec<Event>>) -> Seq<Seq<Event>> {
    batches.map_values(|batch: Vec<Event>| batch@)
}

/// Whether some event in `events` has the identifier of `event`.
fn batch_contains_id(events: &Vec<Event>, id: EventId) -> (r: bool)
    ensures
        r == contains_id(events@, id),
{
    let mut i: usize = 0;
    while i < events.len()
        invariant
            i <= events@.len(),
            forall|j: int| 0 <= j < i ==> events@[j].id != id,
        decreases events@.len() - i,
    {
        if events[i].id == id {
            assert(contains_id(events@, id)) by {
                assert(events@[i as int].id == id);
            }
            return true;
        }
        i = i + 1;
    }
    false
}

/// Accumulate one queried event, suppressing duplicates by identifier and
/// preserving first-seen order: the per-result callback of a bounded-time
/// query across endpoints.
pub fn merge_event(events: &mut Vec<Event>, event: Event)
    ensures
        final(events)@ == spec_merge_event(old(events)@, event),
{
    if !batch_contains_id(events, event.id) {
        events.push(event);
    }
}

/// Merge every endpoint's bounded-time query results into one list,
/// suppressing duplicates by identifier across endpoints while preserving
/// first-seen order. Never fails: an endpoint that produced nothing (or
/// whose query failed and was logged) simply contributes an empty batch.
pub fn get_events_of(batches: &Vec<Vec<Event>>) -> (r: Vec<Event>)
    ensures
        r@ == spec_merge_batches(Seq::<Event>::empty(), batches_view(batches@)),
{
    let mut events: Vec<Event> = Vec::new();
    let mut i: usize = 0;
    while i < batches.len()
        invariant
            i <= batches@.len(),
            events@ == spec_merge_batches(
                Seq::<Event>::empty(),
                batches_view(batches@).take(i as int),
            ),
        decreases batches@.len() - i,
    {
        let ghost acc0 = events@;
        let batch = &batches[i];
        let mut j: usize = 0;
        while j < batch.len()
            invariant
                j <= batch@.len(),
                events@ == spec_merge_batch(acc0, batch@.take(j as int)),
            decreases batch@.len() - j,
        {
            proof {
                assert(batch@.take(j as int + 1).drop_last() =~= batch@.take(j as int));
                assert(batch@.take(j as int + 1).last() == batch@[j as int]);
            }
            merge_event(&mut events, batch[j]);
            j = j + 1;
        }
        proof {
            assert(batch@.take(batch@.len() as int) =~= batch@);
            assert(batches_view(batches@).take(i as int + 1).drop_last() =~= batches_view(
                batches@,
            ).take(i as int));
            assert(batches_view(batches@).take(i as int + 1).last() == batch@);
        }
        i = i + 1;
    }
    proof {
        assert(batches_view(batches@).take(batches@.len() as int) =~= batches_view(batches@));
    }
    events
}

/// The pool facade's shared state: the set of relay addresses and the
/// active subscription-filter set. In the running system this state sits
/// behind a short-held lock; every operation here is one critical section,
/// and every fan-out result is a snapshot copy.
#[derive(Clone, Debug)]
pub struct RelayPool {
    relays: Vec<RelayUrl>,
    filters: Vec<Filter>,
}

impl Default for RelayPool {
    /// Same as [`RelayPool::new`]: no relays, no active filters.
    fn default() -> (r: Self)
        ensures
            r.wf(),
            r.relay_set() == Seq::<RelayUrl>::empty(),
            r.filter_set() == Seq::<Filter>::empty(),
    {
        RelayPool::new()
    }
}

impl RelayPool {
    /// The registered relay addresses, in insertion order.
    pub closed spec fn relay_set(self) -> Seq<RelayUrl> {
        self.relays@
    }

    /// The active subscription-filter set.
    pub closed spec fn filter_set(self) -> Seq<Filter> {
        self.filters@
    }

    /// At most one handle exists per address.
    pub open spec fn wf(self) -> bool {
        forall|i: int, j: int|
            0 <= i < j < self.relay_set().len() ==> self.relay_set()[i] != self.relay_set()[j]
    }

    /// A fresh pool: no relays, no active filters.
    pub fn new() -> (r: Self)
        ensures
            r.wf(),
            r.relay_set() == Seq::<RelayUrl>::empty(),
            r.filter_set() == Seq::<Filter>::empty(),
    {
        RelayPool { relays: Vec::new(), filters: Vec::new() }
    }

    /// Whether an address is registered.
    fn contains_relay(&self, url: RelayUrl) -> (r: bool)
        ensures
            r == self.relay_set().contains(url),
    {
        let mut i: usize = 0;
        while i < self.relays.len()
            invariant
                i <= self.relays@.len(),
                forall|j: int| 0 <= j < i ==> self.relays@[j] != url,
            decreases self.relays@.len() - i,
        {
            if self.relays[i] == url {
                assert(self.relay_set().contains(url)) by {
                    assert(self.relays@[i as int] == url);
                }
                return true;
            }
            i = i + 1;
        }
        false
    }

    /// Snapshot copy of the relay set.
    pub fn relays(&self) -> (r: Vec<RelayUrl>)
        ensures
            r@ == self.relay_set(),
    {
        let mut r: Vec<RelayUrl> = Vec::new();
        let mut i: usize = 0;
        while i < self.relays.len()
            invariant
                i <= self.relays@.len(),
                r@ == self.relay_set().take(i as int),
            decreases self.relays@.len() - i,
        {
            r.push(self.relays[i]);
            proof {
                assert(self.relay_set().take(i as int + 1) =~= self.relay_set().take(
                    i as int,
                ).push(self.relay_set()[i as int]));
            }
            i = i + 1;
        }
        proof {
            assert(self.relay_set().take(self.relay_set().len() as int) =~= self.relay_set());
        }
        r
    }

    /// Snapshot copy of the active subscription-filter set.
    pub fn subscription_filters(&self) -> (r: Vec<Filter>)
        ensures
            r@ == self.filter_set(),
    {
        let mut r: Vec<Filter> = Vec::new();
        let mut i: usize = 0;
        while i < self.filters.len()
            invariant
                i <= self.filters@.len(),
                r@ == self.filter_set().take(i as int),
            decreases self.filters@.len() - i,
        {
            r.push(self.filters[i]);
            proof {
                assert(self.filter_set().take(i as int + 1) =~= self.filter_set().take(
                    i as int,
                ).push(self.filter_set()[i as int]));
            }
            i = i + 1;
        }
        proof {
            assert(self.filter_set().take(self.filter_set().len() as int) =~= self.filter_set());
        }
        r
    }

    /// Register a new relay address; a no-op when the address is already
    /// present. Returns whether the address was new: only then must the
    /// embedding runtime construct the underlying endpoint, so re-adding an
    /// existing address never disrupts a connected endpoint.
    pub fn add_relay(&mut self, url: RelayUrl) -> (added: bool)
        requires
            old(self).wf(),
        ensures
            final(self).wf(),
            final(self).relay_set() == spec_add_relay(old(self).relay_set(), url),
            added == !old(self).relay_set().contains(url),
            final(self).filter_set() == old(self).filter_set(),
    {
        if self.contains_relay(url) {
            false
        } else {
            self.relays.push(url);
            proof {
                let s = old(self).relay_set();
                assert forall|i: int, j: int|
                    0 <= i < j < self.relay_set().len() implies self.relay_set()[i]
                    != self.relay_set()[j] by {
                    if j == s.len() as int {
                        assert(self.relay_set()[i] == s[i]);
                        assert(s[i] != url) by {
                            assert(!s.contains(url));
                        }
                    }
                }
            }
            true
        }
    }

    /// The position of an address in the relay set, if it is registered.
    fn find_relay(&self, url: RelayUrl) -> (r: Option<usize>)
        ensures
            match r {
                Some(i) => {
                    &&& i < self.relay_set().len()
                    &&& self.relay_set()[i as int] == url
                    &&& forall|j: int| 0 <= j < i ==> self.relay_set()[j] != url
                },
                None => !self.relay_set().contains(url),
            },
    {
        let mut i: usize = 0;
        while i < self.relays.len()
            invariant
                i <= self.relays@.len(),
                forall|j: int| 0 <= j < i ==> self.relays@[j] != url,
            decreases self.relays@.len() - i,
        {
            if self.relays[i] == url {
                return Some(i);
            }
            i = i + 1;
        }
        None
    }

    /// Deregister a relay address; a no-op when the address is absent.
    /// Returns whether a handle was removed: only then must the embedding
    /// runtime disconnect the underlying endpoint.
    pub fn remove_relay(&mut self, url: RelayUrl) -> (removed: bool)
        requires
            old(self).wf(),
        ensures
            final(self).wf(),
            removed == old(self).relay_set().contains(url),
            final(self).relay_set() == old(self).relay_set().remove_value(url),
            final(self).filter_set() == old(self).filter_set(),
    {
        let ghost s = old(self).relay_set();
        match self.find_relay(url) {
            Some(i) => {
                self.relays.remove(i);
                proof {
                    assert(s.contains(url)) by {
                        assert(s[i as int] == url);
                    }
                    s.index_of_first_ensures(url);
                    let first = s.index_of_first(url).unwrap();
                    assert(first == i as int) by {
                        assert(s[first] == url);
                        if first < i as int {
                            assert(s[first] != url);
                        }
                        if (i as int) < first {
                            assert(s[i as int] != url);
                        }
                    }
                    assert(final(self).relay_set() == s.remove_value(url));
                    s.remove_ensures(i as int);
                    assert forall|a: int, b: int|
                        0 <= a < b < final(self).relay_set().len() implies final(self).relay_set()[a]
                        != final(self).relay_set()[b] by {
                        let t = final(self).relay_set();
                        let a0: int = if a < i as int {
                            a
                        } else {
                            a + 1
                        };
                        let b0: int = if b < i as int {
                            b
                        } else {
                            b + 1
                        };
                        assert(t[a] == s[a0]);
                        assert(t[b] == s[b0]);
                        assert(s[a0] != s[b0]);
                    }
                }
                true
            },
            None => {
                proof {
                    s.index_of_first_ensures(url);
                }
                false
            },
        }
    }

    /// Plan a broadcast-style send. With zero relays this fails with
    /// `NoRelayConnected` before any delivery attempt; otherwise it yields
    /// the event to pre-register (when the command publishes one) and the
    /// snapshot of relays to deliver to, each independently: one endpoint's
    /// delivery failure is logged by the runtime and never fails the call.
    pub fn send_msg(&self, msg: ClientMessage) -> (r: Result<SendPlan, Error>)
        ensures
            match r {
                Ok(plan) => {
                    &&& self.relay_set().len() > 0
                    &&& plan.targets@ == self.relay_set()
                    &&& plan.pre_register == spec_pre_register(msg)
                },
                Err(e) => {
                    &&& self.relay_set().len() == 0
                    &&& e == Error::NoRelayConnected
                },
            },
    {
        if self.relays.is_empty() {
            return Err(Error::NoRelayConnected);
        }
        let pre_register = match msg {
            ClientMessage::Event(event) => Some(event),
            ClientMessage::Other(_) => None,
        };
        Ok(SendPlan { pre_register, targets: self.relays() })
    }

    /// Gate a single-target send. Fails with `RelayNotFound` when the
    /// address is not registered, mutating nothing; otherwise returns the
    /// message to deliver to exactly that endpoint, whose own success or
    /// failure the runtime propagates verbatim to the caller.
    pub fn send_msg_to(&self, url: RelayUrl, msg: ClientMessage) -> (r: Result<ClientMessage, Error>)
        ensures
            match r {
                Ok(m) => self.relay_set().contains(url) && m == msg,
                Err(e) => !self.relay_set().contains(url) && e == Error::RelayNotFound,
            },
    {
        if self.contains_relay(url) {
            Ok(msg)
        } else {
            Err(Error::RelayNotFound)
        }
    }

    /// Replace the active subscription-filter set (last writer wins) and
    /// return the snapshot of relays that must be asked to apply it;
    /// per-endpoint failures are logged by the runtime, never surfaced.
    pub fn subscribe(&mut self, filters: Vec<Filter>) -> (targets: Vec<RelayUrl>)
        requires
            old(self).wf(),
        ensures
            final(self).wf(),
            final(self).relay_set() == old(self).relay_set(),
            final(self).filter_set() == filters@,
            targets@ == old(self).relay_set(),
    {
        let targets = self.relays();
        self.filters = filters;
        targets
    }

    /// The snapshot of relays that must be asked to clear their
    /// subscription; the pool's own filter set is untouched, and
    /// per-endpoint failures are logged by the runtime, never surfaced.
    pub fn unsubscribe(&self) -> (targets: Vec<RelayUrl>)
        ensures
            targets@ == self.relay_set(),
    {
        self.relays()
    }
}

} // verus!
