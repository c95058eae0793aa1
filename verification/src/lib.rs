//! Bridges a media player's "now playing" metadata to a message broker.
//!
//! The library holds the logic of the bridge: the metadata snapshot type,
//! the change detector that decides whether a new observation warrants a
//! publish, the mapping from a snapshot to the topic/value pairs that go
//! out on the wire, and the per-iteration decision of the poll loop.
//! The thin shims around it — querying the desktop IPC bus for the active
//! player, the broker connection, the timer — live outside the library and
//! only hand plain values in and out.

pub mod detect;
pub mod poll;
pub mod publish;
pub mod snapshot;
