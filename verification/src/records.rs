//! Plain-value models of the externally owned object records, and the
//! byte-layout contract of those records.
//!
//! The external engine allocates and owns the real records, whose layouts
//! are fixed byte-for-byte. This crate works on models holding the fields
//! the logic reads and writes as plain integers; the embedding code copies
//! values between a live record and its model. Angles are unsigned 16-bit
//! units with a full turn at 65536; the vertical offset is a whole number
//! of world units here, written back as the engine's floating-point field
//! by the embedding code.
//!
//! The layout constants below restate the external contract: every field
//! offset and both record sizes. The proof functions check that the declared
//! field spans tile each record exactly, the model's replacement for an
//! overlay's compile-time size assertion: if the external contract drifts,
//! the constants no longer add up and the proofs break.

use vstd::prelude::*;

verus! {

/// Mandated total size, in bytes, of a live collectible record.
pub const ITEM_RECORD_SIZE: u64 = 0x1288;

/// Mandated total size, in bytes, of a live container record.
pub const CONTAINER_RECORD_SIZE: u64 = 0x19A8;

/// Size of the common actor-object header that starts both records.
pub const ACTOR_BASE_SIZE: u64 = 0x410;

/// Model of a live collectible record: the fields this crate's logic reads
/// or writes, as plain values. The engine-only scratch fields (model
/// pointer, animation state, world position) stay with the host.
#[allow(non_camel_case_types)]
#[derive(Clone, Copy, Debug, PartialEq, Eq, Structural)]
pub struct dAcItem {
    /// Identity code of the collectible, 0..=511.
    pub itemid: u16,
    /// First parameter word: identity in the low 9 bits, the
    /// suppress-notification bit at bit 9, a custom-vertical bit used by the
    /// vertical correction.
    pub param1: u32,
    /// Second parameter word: the packed custom-flag payload.
    pub param2: u32,
    /// Rotation about the x axis (tilt), angle units.
    pub rot_x: u16,
    /// Rotation about the y axis (facing); bit 0 doubles as the renderer's
    /// default-scaling toggle.
    pub rot_y: u16,
    /// Rotation about the z axis, angle units.
    pub rot_z: u16,
    /// Vertical placement correction, whole world units.
    pub freestanding_y_offset: u16,
    /// Identity resolved by this core for the engine to read back.
    pub final_determined_itemid: u16,
}

/// Model of a live container record's own fields. The record is read-only
/// to this crate; it is carried for layout validation and for embeddings
/// that inspect container state.
#[allow(non_camel_case_types)]
#[derive(Clone, Copy, Debug, PartialEq, Eq, Structural)]
pub struct dAcTbox {
    /// Identity held by the container, 0..=511.
    pub itemid_0x1ff: u16,
    /// Model index of the chest's visual variant.
    pub item_model_index: u16,
    /// Nonzero once the container has been opened.
    pub chest_opened: u8,
    /// Scene flag set when the container spawns.
    pub spawn_sceneflag: u8,
    /// Scene flag set when the container is opened.
    pub set_sceneflag: u8,
    /// The container's own flag index.
    pub chestflag: u8,
    /// Engine field of unestablished meaning, carried through.
    pub unk: u8,
    /// Visual/behavioral subtype of the container.
    pub chest_subtype: u8,
    /// Engine bookkeeping related to the opened state.
    pub is_chest_opened_related: u8,
    /// Whether the engine runs its obstruction check for this container.
    pub do_obstructed_check: bool,
}

/// Byte spans of the live collectible record, in layout order: the actor
/// header, then each field or explicit padding gap. The declared spans must
/// tile the record: they are contiguous from offset 0 and their total is the
/// mandated record size.
pub open spec fn item_record_spans() -> Seq<u64> {
    seq![
        ACTOR_BASE_SIZE,  // common actor-object header
        2,  // identity code
        6,  // gap
        8,  // model pointer (engine-only)
        2784,  // gap
        4,  // actor list element
        816,  // gap
        4,  // freestanding vertical offset (engine stores a 32-bit float)
        44,  // gap
        2,  // final resolved identity
        10,  // gap
        1,  // prevent-drop toggle
        3,  // gap
        1,  // no-longer-waiting toggle
        19,  // gap
    ]
}

/// Byte spans of the live container record, in layout order.
pub open spec fn container_record_spans() -> Seq<u64> {
    seq![
        ACTOR_BASE_SIZE,  // common actor-object header
        0xB8,  // model/animation state
        0x12E8,  // gap
        0x70,  // state manager
        0xA8,  // gap
        0x28,  // dowsing target
        0x28,  // goddess-chest dowsing target
        0x10,  // dowsing registration hook
        0x10,  // dowsing unregistration hook
        0x58,  // gap
        2,  // identity held
        2,  // item model index
        1,  // chest opened
        1,  // spawn scene flag
        1,  // set scene flag
        1,  // chest flag
        1,  // engine field of unestablished meaning
        1,  // chest subtype
        2,  // gap
        1,  // opened-state bookkeeping
        4,  // gap
        1,  // obstruction-check toggle
        6,  // gap
    ]
}

/// Sum of a sequence of byte spans.
pub open spec fn spans_total(spans: Seq<u64>) -> int
    decreases spans.len(),
{
    if spans.len() == 0 {
        0
    } else {
        spans[0] + spans_total(spans.skip(1))
    }
}

/// The collectible record's declared field spans tile exactly the mandated
/// record size: the layout restated here matches the external contract's
/// total, the overlay's size assertion in proof form.
pub proof fn lemma_item_record_size()
    ensures
        spans_total(item_record_spans()) == ITEM_RECORD_SIZE,
{
    reveal_with_fuel(spans_total, 17);
    assert(spans_total(item_record_spans()) == ITEM_RECORD_SIZE);
}

/// The container record's declared field spans tile exactly the mandated
/// record size.
pub proof fn lemma_container_record_size()
    ensures
        spans_total(container_record_spans()) == CONTAINER_RECORD_SIZE,
{
    reveal_with_fuel(spans_total, 25);
    assert(spans_total(container_record_spans()) == CONTAINER_RECORD_SIZE);
}

} // verus!
