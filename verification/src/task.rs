//! The aggregation loop's state and its single transition step.
//!
//! The loop itself is a perpetual single-consumer recursion over the inbound
//! channel, run by the embedding runtime; every decision it takes is
//! [`RelayPoolTask::handle_msg`], a verified function from the dedup window
//! and one inbound message to the new window, the notifications to publish
//! (in order), and whether the loop terminates.

use vstd::prelude::*;

use crate::message::{Event, EventId, RelayMessage, RelayPoolMessage, RelayPoolNotification};

verus! {

/// Capacity of the dedup window: the bounded memory of recently seen
/// event identifiers.
pub const MAX_EVENTS: usize = 100000;

/// What one insertion does to the dedup window: when the window is at
/// capacity, the oldest identifier (and only that one) is evicted first,
/// strictly by insertion order; then the new identifier is appended.
pub open spec fn window_insert(w: Seq<EventId>, id: EventId) -> Seq<EventId> {
    if w.len() >= MAX_EVENTS {
        w.remove(0).push(id)
    } else {
        w.push(id)
    }
}

/// One step of the aggregation loop: from the dedup window and one inbound
/// pool message to the new window, the notifications published on the bus
/// (in order), and whether the loop terminates.
///
/// - An inbound protocol message is always republished as a `Message`
///   notification. If it carries an event whose signature verifies and whose
///   identifier is not yet in the window, the identifier is inserted and an
///   `Event` notification follows; a duplicate or an event that fails
///   verification changes nothing further.
/// - A self-published event has its identifier pre-registered in the window,
///   with no notification.
/// - `Shutdown` publishes the `Shutdown` notification and terminates.
pub open spec fn spec_handle(w: Seq<EventId>, msg: RelayPoolMessage) -> (Seq<
    EventId,
>, Seq<RelayPoolNotification>, bool) {
    match msg {
        RelayPoolMessage::ReceivedMsg { relay_url, msg: m } => {
            let published = seq![RelayPoolNotification::Message(relay_url, m)];
            match m {
                RelayMessage::Event { event } => {
                    if event.sig_valid && !w.contains(event.id) {
                        (
                            window_insert(w, event.id),
                            published.push(RelayPoolNotification::Event(relay_url, event)),
                            false,
                        )
                    } else {
                        (w, published, false)
                    }
                },
                RelayMessage::Other(_) => (w, published, false),
            }
        },
        RelayPoolMessage::EventSent(event) => (
            window_insert(w, event.id),
            Seq::<RelayPoolNotification>::empty(),
            false,
        ),
        RelayPoolMessage::Shutdown => (w, seq![RelayPoolNotification::Shutdown], true),
    }
}

/// What the aggregation loop does with one inbound message.
pub struct HandleOutcome {
    /// The notifications to publish on the bus, in order. Publishing is
    /// best-effort: a publish failure never affects the loop's progress.
    pub notifications: Vec<RelayPoolNotification>,
    /// Whether the loop terminates; true only after `Shutdown`.
    pub done: bool,
}

/// The aggregation loop's state: the bounded first-in-first-out window of
/// recently seen event identifiers. The loop is its sole owner and writer.
pub struct RelayPoolTask {
    events: Vec<EventId>,
}

impl RelayPoolTask {
    /// The dedup window, oldest identifier first.
    pub closed spec fn window(self) -> Seq<EventId> {
        self.events@
    }

    /// The window never exceeds its capacity.
    pub open spec fn wf(self) -> bool {
        self.window().len() <= MAX_EVENTS
    }

    /// A fresh aggregation state with an empty dedup window.
    pub fn new() -> (r: Self)
        ensures
            r.wf(),
            r.window() == Seq::<EventId>::empty(),
    {
        RelayPoolTask { events: Vec::new() }
    }

    /// Whether an identifier is in the dedup window.
    fn contains_event(&self, id: EventId) -> (r: bool)
        ensures
            r == self.window().contains(id),
    {
        let mut i: usize = 0;
        while i < self.events.len()
            invariant
                i <= self.events@.len(),
                forall|j: int| 0 <= j < i ==> self.events@[j] != id,
            decreases self.events@.len() - i,
        {
            if self.events[i] == id {
                assert(self.window().contains(id)) by {
                    assert(self.events@[i as int] == id);
                }
                return true;
            }
            i = i + 1;
        }
        false
    }

    /// Insert an identifier, evicting the oldest one first when the window
    /// is at capacity.
    fn add_event(&mut self, id: EventId)
        requires
            old(self).wf(),
        ensures
            final(self).wf(),
            final(self).window() == window_insert(old(self).window(), id),
    {
        if self.events.len() >= MAX_EVENTS {
            self.events.remove(0);
        }
        self.events.push(id);
    }

    /// Process one inbound pool message: the sole transition of the
    /// aggregation loop, conforming exactly to [`spec_handle`].
    pub fn handle_msg(&mut self, msg: RelayPoolMessage) -> (r: HandleOutcome)
        requires
            old(self).wf(),
        ensures
            final(self).wf(),
            final(self).window() == spec_handle(old(self).window(), msg).0,
            r.notifications@ == spec_handle(old(self).window(), msg).1,
            r.done == spec_handle(old(self).window(), msg).2,
    {
        match msg {
            RelayPoolMessage::ReceivedMsg { relay_url, msg: m } => {
                let mut notifications: Vec<RelayPoolNotification> = Vec::new();
                notifications.push(RelayPoolNotification::Message(relay_url, m));
                if let RelayMessage::Event { event } = m {
                    if event.sig_valid && !self.contains_event(event.id) {
                        self.add_event(event.id);
                        notifications.push(RelayPoolNotification::Event(relay_url, event));
                    }
                }
                HandleOutcome { notifications, done: false }
            },
            RelayPoolMessage::EventSent(event) => {
                self.add_event(event.id);
                HandleOutcome { notifications: Vec::new(), done: false }
            },
            RelayPoolMessage::Shutdown => {
                let mut notifications: Vec<RelayPoolNotification> = Vec::new();
                notifications.push(RelayPoolNotification::Shutdown);
                HandleOutcome { notifications, done: true }
            },
        }
    }
}

} // verus!
