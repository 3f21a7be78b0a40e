//! Runtime logic for collectible-object records of an externally owned
//! object model: a bit-packing codec for the 32-bit custom parameter word,
//! dungeon-scoped completion bookkeeping over a local store and a persisted
//! global table, a custom-completion-flag gate that can send a collectible back
//! to its original identity, and table-driven placement corrections for
//! freestanding items.
//!
//! The external engine owns the records; this crate works on plain-value
//! models of the fields the logic reads and writes. Host-side concerns
//! (floating-point positions, trigonometric projection, the engine's flag
//! stores) stay with the embedding code, which hands plain values in and
//! applies the returned corrections.

pub mod dungeon;
pub mod gate;
pub mod grants;
pub mod offsets;
pub mod params;
pub mod records;
