//! Laws of the coordinator, stated over the specification model and proved.
//!
//! Each law speaks of the same spec functions the executable functions'
//! contracts speak of: [`spec_handle`] for the aggregation loop,
//! [`spec_add_relay`] for relay-set bookkeeping, and the merge functions for
//! cross-endpoint queries.

use vstd::prelude::*;

use crate::message::{Event, EventId, RelayMessage, RelayPoolMessage, RelayPoolNotification, RelayUrl};
use crate::pool::{contains_id, spec_add_relay, spec_merge_batch, spec_merge_batches, spec_merge_event};
use crate::task::{spec_handle, window_insert, MAX_EVENTS};

verus! {

/// The notifications the aggregation loop publishes, in order, over a whole
/// stream of inbound messages: messages are processed one at a time in
/// arrival order, and processing stops right after the first `Shutdown`.
pub open spec fn process_all(w: Seq<EventId>, msgs: Seq<RelayPoolMessage>) -> Seq<
    RelayPoolNotification,
>
    decreases msgs.len(),
{
    if msgs.len() == 0 {
        Seq::empty()
    } else {
        let stepped = spec_handle(w, msgs[0]);
        if stepped.2 {
            stepped.1
        } else {
            stepped.1 + process_all(stepped.0, msgs.drop_first())
        }
    }
}

/// The dedup window after inserting a whole sequence of identifiers in order.
pub open spec fn insert_all(w: Seq<EventId>, ids: Seq<EventId>) -> Seq<EventId>
    decreases ids.len(),
{
    if ids.len() == 0 {
        w
    } else {
        insert_all(window_insert(w, ids[0]), ids.drop_first())
    }
}

/// No identifier occurs twice.
pub open spec fn distinct_ids(ids: Seq<EventId>) -> bool {
    forall|i: int, j: int| 0 <= i < j < ids.len() ==> ids[i] != ids[j]
}

/// No two events share an identifier.
pub open spec fn unique_event_ids(s: Seq<Event>) -> bool {
    forall|i: int, j: int| 0 <= i < j < s.len() ==> s[i].id != s[j].id
}

/// An insertion always leaves the inserted identifier in the window.
pub proof fn lemma_window_insert_contains(w: Seq<EventId>, id: EventId)
    ensures
        window_insert(w, id).contains(id),
{
    let w2 = window_insert(w, id);
    assert(w2[w2.len() - 1] == id);
}

/// Dedup idempotence: an event with a valid signature whose identifier is
/// not yet in the window, delivered twice (from the same or different
/// addresses), yields exactly one `Event` notification and two `Message`
/// notifications, and the second delivery leaves the window unchanged.
pub proof fn dedup_idempotence(
    w: Seq<EventId>,
    first_url: RelayUrl,
    second_url: RelayUrl,
    event: Event,
)
    requires
        event.sig_valid,
        !w.contains(event.id),
    ensures
        ({
            let m = RelayMessage::Event { event };
            let first = spec_handle(w, RelayPoolMessage::ReceivedMsg { relay_url: first_url, msg: m });
            let second = spec_handle(
                first.0,
                RelayPoolMessage::ReceivedMsg { relay_url: second_url, msg: m },
            );
            &&& first.1 == seq![
                RelayPoolNotification::Message(first_url, m),
                RelayPoolNotification::Event(first_url, event),
            ]
            &&& second.1 == seq![RelayPoolNotification::Message(second_url, m)]
            &&& second.0 == first.0
        }),
{
    let m = RelayMessage::Event { event };
    let first = spec_handle(w, RelayPoolMessage::ReceivedMsg { relay_url: first_url, msg: m });
    lemma_window_insert_contains(w, event.id);
    assert(first.1 =~= seq![
        RelayPoolNotification::Message(first_url, m),
        RelayPoolNotification::Event(first_url, event),
    ]);
    let second = spec_handle(
        first.0,
        RelayPoolMessage::ReceivedMsg { relay_url: second_url, msg: m },
    );
    assert(second.1 =~= seq![RelayPoolNotification::Message(second_url, m)]);
}

/// Self-publish pre-registration: after the facade's published event is
/// pre-registered (which itself publishes nothing), a later echo of that
/// event from any relay produces a `Message` notification but no `Event`
/// notification, and leaves the window unchanged.
pub proof fn self_publish_pre_registration(w: Seq<EventId>, url: RelayUrl, event: Event)
    ensures
        ({
            let sent = spec_handle(w, RelayPoolMessage::EventSent(event));
            let m = RelayMessage::Event { event };
            let echo = spec_handle(sent.0, RelayPoolMessage::ReceivedMsg { relay_url: url, msg: m });
            &&& sent.1 == Seq::<RelayPoolNotification>::empty()
            &&& echo.1 == seq![RelayPoolNotification::Message(url, m)]
            &&& echo.0 == sent.0
        }),
{
    let sent = spec_handle(w, RelayPoolMessage::EventSent(event));
    lemma_window_insert_contains(w, event.id);
    let m = RelayMessage::Event { event };
    let echo = spec_handle(sent.0, RelayPoolMessage::ReceivedMsg { relay_url: url, msg: m });
    assert(echo.1 =~= seq![RelayPoolNotification::Message(url, m)]);
}

/// Verification gate: an event that fails signature verification never
/// produces an `Event` notification and never consumes dedup-window
/// capacity; only the unconditional `Message` notification is published.
pub proof fn verification_gate(w: Seq<EventId>, url: RelayUrl, event: Event)
    requires
        !event.sig_valid,
    ensures
        ({
            let m = RelayMessage::Event { event };
            let stepped = spec_handle(w, RelayPoolMessage::ReceivedMsg { relay_url: url, msg: m });
            &&& stepped.0 == w
            &&& stepped.1 == seq![RelayPoolNotification::Message(url, m)]
            &&& stepped.2 == false
        }),
{
    let m = RelayMessage::Event { event };
    let stepped = spec_handle(w, RelayPoolMessage::ReceivedMsg { relay_url: url, msg: m });
    assert(stepped.1 =~= seq![RelayPoolNotification::Message(url, m)]);
}

/// Filling a window that has room for the whole sequence evicts nothing:
/// the identifiers are simply appended in order.
proof fn lemma_insert_all_no_evict(w: Seq<EventId>, ids: Seq<EventId>)
    requires
        w.len() + ids.len() <= MAX_EVENTS,
    ensures
        insert_all(w, ids) == w + ids,
    decreases ids.len(),
{
    if ids.len() == 0 {
        assert(w + ids =~= w);
    } else {
        assert(window_insert(w, ids[0]) == w.push(ids[0]));
        lemma_insert_all_no_evict(w.push(ids[0]), ids.drop_first());
        assert(w.push(ids[0]) + ids.drop_first() =~= w + ids);
    }
}

/// Inserting a concatenation is inserting the two parts one after the other.
proof fn lemma_insert_all_split(w: Seq<EventId>, a: Seq<EventId>, b: Seq<EventId>)
    ensures
        insert_all(w, a + b) == insert_all(insert_all(w, a), b),
    decreases a.len(),
{
    if a.len() == 0 {
        assert(a + b =~= b);
    } else {
        assert((a + b)[0] == a[0]);
        assert((a + b).drop_first() =~= a.drop_first() + b);
        lemma_insert_all_split(window_insert(w, a[0]), a.drop_first(), b);
    }
}

/// FIFO eviction exactness: inserting one more distinct identifier than the
/// window's capacity into an empty window evicts exactly the first-inserted
/// identifier — the window then holds exactly the later identifiers, in
/// insertion order — and resubmitting the evicted identifier afterward is
/// treated as new: a valid event carrying it produces a fresh `Event`
/// notification (after the unconditional `Message` one).
pub proof fn fifo_eviction_exactness(ids: Seq<EventId>, url: RelayUrl, event: Event)
    requires
        ids.len() == MAX_EVENTS + 1,
        distinct_ids(ids),
        event.id == ids[0],
        event.sig_valid,
    ensures
        ({
            let w = insert_all(Seq::empty(), ids);
            let m = RelayMessage::Event { event };
            let resubmit = spec_handle(w, RelayPoolMessage::ReceivedMsg { relay_url: url, msg: m });
            &&& w == ids.subrange(1, ids.len() as int)
            &&& !w.contains(ids[0])
            &&& resubmit.1 == seq![
                RelayPoolNotification::Message(url, m),
                RelayPoolNotification::Event(url, event),
            ]
        }),
{
    let empty = Seq::<EventId>::empty();
    let front = ids.take(MAX_EVENTS as int);
    let back = ids.skip(MAX_EVENTS as int);
    assert(ids =~= front + back);
    lemma_insert_all_split(empty, front, back);
    lemma_insert_all_no_evict(empty, front);
    assert(empty + front =~= front);
    let w = insert_all(empty, ids);
    assert(back =~= seq![ids[MAX_EVENTS as int]]);
    assert(back.drop_first() =~= Seq::<EventId>::empty());
    assert(insert_all(front, back) == insert_all(window_insert(front, back[0]), back.drop_first()));
    assert(w == window_insert(front, ids[MAX_EVENTS as int]));
    assert(w =~= ids.subrange(1, ids.len() as int));
    assert forall|k: int| 0 <= k < w.len() implies w[k] != ids[0] by {
        assert(w[k] == ids[k + 1]);
    }
    assert(!w.contains(ids[0]));
    let m = RelayMessage::Event { event };
    let resubmit = spec_handle(w, RelayPoolMessage::ReceivedMsg { relay_url: url, msg: m });
    assert(resubmit.1 =~= seq![
        RelayPoolNotification::Message(url, m),
        RelayPoolNotification::Event(url, event),
    ]);
}

/// Idempotent add: adding an address a second time changes nothing, and an
/// added address is registered.
pub proof fn idempotent_add(s: Seq<RelayUrl>, url: RelayUrl)
    ensures
        spec_add_relay(spec_add_relay(s, url), url) == spec_add_relay(s, url),
        spec_add_relay(s, url).contains(url),
{
    if !s.contains(url) {
        assert(s.push(url)[s.len() as int] == url);
    }
}

/// Shutdown ordering: for messages `m1`, `m2` and `Shutdown` enqueued in
/// that order, every notification of `m1` and of `m2` is published, in
/// order, strictly before the single `Shutdown` notification — and whatever
/// was enqueued after the `Shutdown` is never processed.
pub proof fn shutdown_ordering(
    w: Seq<EventId>,
    m1: RelayPoolMessage,
    m2: RelayPoolMessage,
    rest: Seq<RelayPoolMessage>,
)
    requires
        !(m1 is Shutdown),
        !(m2 is Shutdown),
    ensures
        ({
            let first = spec_handle(w, m1);
            let second = spec_handle(first.0, m2);
            process_all(w, seq![m1, m2, RelayPoolMessage::Shutdown] + rest) == first.1 + second.1
                + seq![RelayPoolNotification::Shutdown]
        }),
{
    let msgs = seq![m1, m2, RelayPoolMessage::Shutdown] + rest;
    let first = spec_handle(w, m1);
    let second = spec_handle(first.0, m2);
    assert(msgs[0] == m1);
    assert(!first.2);
    let msgs1 = msgs.drop_first();
    assert(msgs1 =~= seq![m2, RelayPoolMessage::Shutdown] + rest);
    assert(msgs1[0] == m2);
    assert(!second.2);
    let msgs2 = msgs1.drop_first();
    assert(msgs2 =~= seq![RelayPoolMessage::Shutdown] + rest);
    assert(msgs2[0] == RelayPoolMessage::Shutdown);
    let third = spec_handle(second.0, RelayPoolMessage::Shutdown);
    assert(third.2);
    assert(process_all(second.0, msgs2) == third.1);
    assert(process_all(first.0, msgs1) == second.1 + process_all(second.0, msgs2));
    assert(process_all(w, msgs) == first.1 + process_all(first.0, msgs1));
    assert(process_all(w, msgs) == first.1 + (second.1 + third.1));
    assert(first.1 + (second.1 + third.1) =~= first.1 + second.1 + seq![
        RelayPoolNotification::Shutdown,
    ]);
}

/// First-seen-wins accumulation of one event keeps event identifiers unique.
proof fn lemma_merge_event_unique(acc: Seq<Event>, event: Event)
    requires
        unique_event_ids(acc),
    ensures
        unique_event_ids(spec_merge_event(acc, event)),
{
    if !contains_id(acc, event.id) {
        let merged = acc.push(event);
        assert forall|i: int, j: int| 0 <= i < j < merged.len() implies merged[i].id
            != merged[j].id by {
            if j == acc.len() as int {
                assert(merged[i] == acc[i]);
                assert(acc[i].id != event.id) by {
                    assert(!(exists|k: int| 0 <= k < acc.len() && acc[k].id == event.id));
                }
            }
        }
    }
}

/// Merging one endpoint's batch keeps event identifiers unique.
proof fn lemma_merge_batch_unique(acc: Seq<Event>, batch: Seq<Event>)
    requires
        unique_event_ids(acc),
    ensures
        unique_event_ids(spec_merge_batch(acc, batch)),
    decreases batch.len(),
{
    if batch.len() != 0 {
        lemma_merge_batch_unique(acc, batch.drop_last());
        lemma_merge_event_unique(spec_merge_batch(acc, batch.drop_last()), batch.last());
    }
}

/// A cross-endpoint query result never holds two events with the same
/// identifier, whatever each endpoint returned.
pub proof fn query_result_unique(batches: Seq<Seq<Event>>)
    ensures
        unique_event_ids(spec_merge_batches(Seq::empty(), batches)),
    decreases batches.len(),
{
    if batches.len() == 0 {
    } else {
        query_result_unique(batches.drop_last());
        lemma_merge_batch_unique(
            spec_merge_batches(Seq::empty(), batches.drop_last()),
            batches.last(),
        );
    }
}

} // verus!
