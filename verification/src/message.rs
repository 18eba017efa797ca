//! Plain-value models of the values the coordinator reads.
//!
//! The protocol layer owns the real structure of events, protocol messages,
//! filters and addresses; this core reads only an event's identifier, the
//! pass/fail outcome of its signature verification, whether an inbound
//! message carries an event, and whether an outgoing command publishes one.
//! Each type here holds exactly that as plain values; everything else is
//! opaque payload passed through unchanged.

use vstd::prelude::*;

verus! {

/// Unique identifier of an event.
#[derive(Clone, Copy, PartialEq, Eq, Structural, Debug, Hash)]
pub struct EventId(pub u64);

/// An event as this core reads it: its unique identifier and the pass/fail
/// outcome of the protocol library's signature-verification capability.
/// Equality of events is by identifier.
#[derive(Clone, Copy, PartialEq, Eq, Structural, Debug)]
pub struct Event {
    /// The event's unique identifier.
    pub id: EventId,
    /// Whether the event's signature verifies.
    pub sig_valid: bool,
}

/// Address of one relay endpoint: a URL-like key, at most one handle each.
#[derive(Clone, Copy, PartialEq, Eq, Structural, Debug, Hash)]
pub struct RelayUrl(pub u64);

/// A subscription-filter descriptor; opaque to this core.
#[derive(Clone, Copy, PartialEq, Eq, Structural, Debug)]
pub struct Filter(pub u64);

/// An inbound protocol message as this core reads it: either it carries an
/// event, or it is other protocol traffic passed through unchanged.
#[derive(Clone, Copy, PartialEq, Eq, Structural, Debug)]
pub enum RelayMessage {
    /// The message carries an event.
    Event { event: Event },
    /// Any other protocol message, with its opaque payload.
    Other(u64),
}

/// An outgoing client command: either it publishes an event, or it is some
/// other command passed through unchanged.
#[derive(Clone, Copy, PartialEq, Eq, Structural, Debug)]
pub enum ClientMessage {
    /// Publish this event.
    Event(Event),
    /// Any other outgoing command, with its opaque payload.
    Other(u64),
}

/// A message on the inbound channel, consumed only by the aggregation loop.
#[derive(Clone, Copy, PartialEq, Eq, Structural, Debug)]
pub enum RelayPoolMessage {
    /// An endpoint pushed an inbound protocol message.
    ReceivedMsg {
        /// Address of the endpoint the message arrived from.
        relay_url: RelayUrl,
        /// The message itself.
        msg: RelayMessage,
    },
    /// The facade published this event; pre-register its identifier.
    EventSent(Event),
    /// Tear the loop down; the only terminal transition.
    Shutdown,
}

/// A notification on the outbound bus, produced only by the aggregation loop.
#[derive(Clone, Copy, PartialEq, Eq, Structural, Debug)]
pub enum RelayPoolNotification {
    /// Every inbound protocol message, unconditionally.
    Message(RelayUrl, RelayMessage),
    /// A newly seen event that passed signature verification.
    Event(RelayUrl, Event),
    /// The pool was shut down; no further notifications follow.
    Shutdown,
}

} // verus!
