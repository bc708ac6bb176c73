//! In-memory routing core of a signaling relay.
//!
//! Peers are known by an opaque [`message::ClientId`]. The hub keeps a
//! directory of delivery handles and a table of host groups, and decides for
//! every connect, disconnect and envelope event how the two tables change and
//! which envelopes have to be pushed through which handles. Pushing them is
//! left to the caller.
pub mod directory;
pub mod groups;
pub mod laws;
pub mod message;
pub mod model;
pub mod server;

