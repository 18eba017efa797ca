//! Client-side coordinator for a set of message-relay endpoints.
//!
//! The pool keeps a bookkeeping set of relay addresses and the active
//! subscription-filter set, merges inbound traffic into one deduplicated,
//! verified event stream, and plans the fan-out of outgoing commands.
//! Transport, wire parsing and signature verification are external
//! collaborators: this crate works on plain values that stand for what the
//! coordinator reads of them, and an embedding runtime performs the I/O.

pub mod message;
pub mod pool;
pub mod task;
pub mod laws;
