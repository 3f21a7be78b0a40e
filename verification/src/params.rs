//! Codec for the custom parameter word (`param2` of a collectible record).
//!
//! The 32-bit word packs four logical fields at fixed, externally mandated
//! bit positions:
//!
//! | bits      | field               | domain                          |
//! |-----------|---------------------|---------------------------------|
//! | 8..=14    | custom flag id      | 0..=126, 0x7F = "no custom flag"|
//! | 15..=16   | scene index code    | 0..=3, remapped to a real scene |
//! | 17        | flag space selector | 0 = scene, 1 = dungeon space    |
//! | 18..=23   | original item code  | small code remapped to identity |

use vstd::prelude::*;

verus! {

/// Sentinel value of the custom-flag field: this collectible carries no
/// custom completion flag.
pub const NO_CUSTOM_FLAG: u32 = 0x7F;

/// Mask of the custom-flag-id field within the parameter word.
pub const FLAG_FIELD_MASK: u32 = 0x0000_7F00;

/// Mask of the scene-index-code field within the parameter word.
pub const SCENE_FIELD_MASK: u32 = 0x0001_8000;

/// Mask of the flag-space-selector field within the parameter word.
pub const TRIGGER_FIELD_MASK: u32 = 0x0002_0000;

/// Mask of the original-item-code field within the parameter word.
pub const ORIGINAL_FIELD_MASK: u32 = 0x00FC_0000;

/// Custom flag id as stored: bits 8..=14 of the word.
pub open spec fn raw_flag(word: u32) -> u32 {
    (word & FLAG_FIELD_MASK) >> 8
}

/// Scene index code as stored: bits 15..=16 of the word.
pub open spec fn raw_scene_code(word: u32) -> u32 {
    (word & SCENE_FIELD_MASK) >> 15
}

/// Flag space selector as stored: bit 17 of the word.
pub open spec fn raw_flag_space(word: u32) -> u32 {
    (word & TRIGGER_FIELD_MASK) >> 17
}

/// Original item code as stored: bits 18..=23 of the word.
pub open spec fn raw_original_item(word: u32) -> u32 {
    (word & ORIGINAL_FIELD_MASK) >> 18
}

/// Remaps a stored scene index code onto the fixed scene index reserved for
/// it; codes outside the table pass through unchanged.
pub open spec fn remap_scene_code(code: u32) -> u32 {
    if code == 0 {
        6
    } else if code == 1 {
        13
    } else if code == 2 {
        16
    } else if code == 3 {
        19
    } else {
        code
    }
}

/// Remaps a stored original-item code onto the identity it stands for;
/// codes outside the table pass through unchanged.
pub open spec fn remap_original_item(code: u32) -> u32 {
    if code == 1 {
        42  // stamina fruit
    } else if code == 2 {
        2  // green rupee
    } else if code == 3 {
        3  // blue rupee
    } else if code == 4 {
        4  // red rupee
    } else if code == 5 {
        34  // rupoor
    } else {
        code
    }
}

/// Unpacks the custom parameter word into (custom flag id, remapped scene
/// index, flag space selector, remapped original identity).
pub fn unpack_custom_item_params(param2: u32) -> (r: (u32, u32, u32, u32))
    ensures
        r.0 == raw_flag(param2),
        r.1 == remap_scene_code(raw_scene_code(param2)),
        r.2 == raw_flag_space(param2),
        r.3 == remap_original_item(raw_original_item(param2)),
        r.0 <= 0x7F,
        r.2 <= 1,
{
    proof {
        lemma_raw_field_bounds(param2);
    }
    let flag: u32 = (param2 & FLAG_FIELD_MASK) >> 8;
    let mut sceneindex: u32 = (param2 & SCENE_FIELD_MASK) >> 15;
    let flag_space_trigger: u32 = (param2 & TRIGGER_FIELD_MASK) >> 17;
    let mut original_itemid: u32 = (param2 & ORIGINAL_FIELD_MASK) >> 18;

    match sceneindex {
        0 => sceneindex = 6,
        1 => sceneindex = 13,
        2 => sceneindex = 16,
        3 => sceneindex = 19,
        _ => {},
    }

    match original_itemid {
        1 => original_itemid = 42,
        2 => original_itemid = 2,
        3 => original_itemid = 3,
        4 => original_itemid = 4,
        5 => original_itemid = 34,
        _ => {},
    }

    (flag, sceneindex, flag_space_trigger, original_itemid)
}

/// Packs four raw field values into a parameter word; the exact inverse of
/// raw extraction, before any remapping.
pub fn pack_custom_item_params(flag: u32, scene_code: u32, flag_space: u32, original_item: u32) -> (word: u32)
    requires
        flag <= 0x7F,
        scene_code <= 3,
        flag_space <= 1,
        original_item <= 0x3F,
    ensures
        raw_flag(word) == flag,
        raw_scene_code(word) == scene_code,
        raw_flag_space(word) == flag_space,
        raw_original_item(word) == original_item,
{
    let word: u32 = (flag << 8) | (scene_code << 15) | (flag_space << 17) | (original_item << 18);
    proof {
        assert(raw_flag(word) == flag && raw_scene_code(word) == scene_code
            && raw_flag_space(word) == flag_space && raw_original_item(word) == original_item)
            by (bit_vector)
            requires
                flag <= 0x7F,
                scene_code <= 3,
                flag_space <= 1,
                original_item <= 0x3F,
                word == (flag << 8) | (scene_code << 15) | (flag_space << 17) | (original_item << 18),
        ;
    }
    word
}

/// Ranges of the raw fields: each extraction stays within its field's
/// domain, whatever the rest of the word holds.
pub proof fn lemma_raw_field_bounds(word: u32)
    ensures
        raw_flag(word) <= 0x7F,
        raw_scene_code(word) <= 3,
        raw_flag_space(word) <= 1,
        raw_original_item(word) <= 0x3F,
{
    assert(raw_flag(word) <= 0x7F && raw_scene_code(word) <= 3 && raw_flag_space(word) <= 1
        && raw_original_item(word) <= 0x3F) by (bit_vector);
}

/// The four fields occupy pairwise disjoint bit positions: each extraction
/// depends only on the bits under its own mask, and the masks never overlap.
pub proof fn lemma_param_fields_nonoverlapping(v: u32, w: u32)
    ensures
        FLAG_FIELD_MASK & SCENE_FIELD_MASK == 0,
        FLAG_FIELD_MASK & TRIGGER_FIELD_MASK == 0,
        FLAG_FIELD_MASK & ORIGINAL_FIELD_MASK == 0,
        SCENE_FIELD_MASK & TRIGGER_FIELD_MASK == 0,
        SCENE_FIELD_MASK & ORIGINAL_FIELD_MASK == 0,
        TRIGGER_FIELD_MASK & ORIGINAL_FIELD_MASK == 0,
        v & FLAG_FIELD_MASK == w & FLAG_FIELD_MASK ==> raw_flag(v) == raw_flag(w),
        v & SCENE_FIELD_MASK == w & SCENE_FIELD_MASK ==> raw_scene_code(v) == raw_scene_code(w),
        v & TRIGGER_FIELD_MASK == w & TRIGGER_FIELD_MASK ==> raw_flag_space(v) == raw_flag_space(w),
        v & ORIGINAL_FIELD_MASK == w & ORIGINAL_FIELD_MASK ==> raw_original_item(v) == raw_original_item(w),
{
    assert(0x0000_7F00u32 & 0x0001_8000u32 == 0 && 0x0000_7F00u32 & 0x0002_0000u32 == 0
        && 0x0000_7F00u32 & 0x00FC_0000u32 == 0 && 0x0001_8000u32 & 0x0002_0000u32 == 0
        && 0x0001_8000u32 & 0x00FC_0000u32 == 0 && 0x0002_0000u32 & 0x00FC_0000u32 == 0)
        by (bit_vector);
    assert((v & 0x0000_7F00u32 == w & 0x0000_7F00u32 ==> raw_flag(v) == raw_flag(w))
        && (v & 0x0001_8000u32 == w & 0x0001_8000u32 ==> raw_scene_code(v) == raw_scene_code(w))
        && (v & 0x0002_0000u32 == w & 0x0002_0000u32 ==> raw_flag_space(v) == raw_flag_space(w))
        && (v & 0x00FC_0000u32 == w & 0x00FC_0000u32 ==> raw_original_item(v) == raw_original_item(w)))
        by (bit_vector);
}

/// The no-custom-flag sentinel is read exactly when the flag field's bits
/// are all set, regardless of every other bit of the word.
pub proof fn lemma_flag_sentinel(word: u32)
    ensures
        raw_flag(word) == NO_CUSTOM_FLAG <==> word & FLAG_FIELD_MASK == FLAG_FIELD_MASK,
{
    assert(raw_flag(word) == 0x7F <==> word & 0x0000_7F00u32 == 0x0000_7F00u32) by (bit_vector);
}

} // verus!
