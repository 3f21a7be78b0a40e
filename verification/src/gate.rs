//! Custom-completion-flag gating and the on-placement record pass.
//!
//! A collectible may carry a custom completion flag in its parameter word.
//! When that flag is already set in the external flag store, the collectible
//! falls back to the identity it originally replaced and its pickup notice
//! is suppressed. The same pass holds a narrow defensive despawn for
//! placements that must not exist before a fixed story moment, and the
//! unconditional notice suppression for currency-class identities.
//!
//! The external flag store itself stays with the host: `flag_query` says
//! which flag to consult, if any, and the host hands the answer back to
//! `check_and_modify_item_actor`.

use vstd::prelude::*;

use crate::offsets;
use crate::offsets::HorizontalMove;
use crate::params;
use crate::records::dAcItem;

verus! {

/// Bit of `param1` that suppresses the pickup notice.
pub const SUPPRESS_NOTICE_BIT: u32 = 0x200;

/// Which of the two externally provided flag spaces a flag lives in.
#[derive(Clone, Copy, Debug, PartialEq, Eq, Structural)]
pub enum FlagSpace {
    /// The per-scene flag space.
    Scene,
    /// The per-dungeon flag space.
    Dungeon,
}

/// A flag in the external store: the space, the scene it is scoped to, and
/// the flag index. Used both to consult a flag and to set one.
#[derive(Clone, Copy, Debug, PartialEq, Eq, Structural)]
pub struct FlagLocator {
    pub space: FlagSpace,
    pub scene: u16,
    pub flag: u16,
}

/// The flag a collectible's parameter word points at, meaningful only when
/// the word carries a custom flag at all.
pub open spec fn spec_flag_locator(param2: u32) -> FlagLocator {
    FlagLocator {
        space: if params::raw_flag_space(param2) == 0 {
            FlagSpace::Scene
        } else {
            FlagSpace::Dungeon
        },
        scene: params::remap_scene_code(params::raw_scene_code(param2)) as u16,
        flag: params::raw_flag(param2) as u16,
    }
}

/// Names the flag the external store must be asked about for this parameter
/// word. A word carrying the no-custom-flag sentinel yields nothing: such a
/// collectible never queries the flag store.
pub fn flag_query(param2: u32) -> (q: Option<FlagLocator>)
    ensures
        params::raw_flag(param2) == params::NO_CUSTOM_FLAG ==> q == None::<FlagLocator>,
        params::raw_flag(param2) != params::NO_CUSTOM_FLAG ==> q == Some(spec_flag_locator(param2)),
{
    let (flag, sceneindex, flag_space_trigger, _original) = params::unpack_custom_item_params(
        param2,
    );
    if flag != params::NO_CUSTOM_FLAG {
        let space = if flag_space_trigger == 0 {
            FlagSpace::Scene
        } else {
            FlagSpace::Dungeon
        };
        Some(FlagLocator { space, scene: sceneindex as u16, flag: flag as u16 })
    } else {
        None
    }
}

/// The defensive despawn condition: the fixed stage whose early placements
/// must not exist yet, identified by name, with its story-progress flag
/// still unset, and the record standing at one of the sentinel z
/// coordinates (the host compares the coordinate, which is floating point).
pub open spec fn spec_despawn(stage: Seq<u8>, stage_story_done: bool, z_is_sentinel: bool) -> bool {
    &&& stage.len() == 8
    &&& stage[0] == 70  // 'F'
    &&& stage[1] == 51  // '3'
    &&& stage[2] == 48  // '0'
    &&& stage[3] == 48  // '0'
    &&& stage[4] == 0
    &&& !stage_story_done
    &&& z_is_sentinel
}

/// Decides the defensive despawn from the current stage name, the stage's
/// story-progress flag, and whether the record's z coordinate equals one of
/// the fixed sentinel values.
pub fn despawn_applies(stage: &[u8; 8], stage_story_done: bool, z_is_sentinel: bool) -> (d: bool)
    ensures
        d == spec_despawn(stage@, stage_story_done, z_is_sentinel),
{
    stage[0] == 70 && stage[1] == 51 && stage[2] == 48 && stage[3] == 48 && stage[4] == 0
        && !stage_story_done && z_is_sentinel
}

/// `param1` after the defensive despawn: the identity bits are zeroed, which
/// makes the engine drop the record during its init pass.
pub open spec fn after_despawn(param1: u32, despawn: bool) -> u32 {
    if despawn {
        param1 & !0x1FFu32
    } else {
        param1
    }
}

/// The currency-class identities (rupees and their kin): these never show a
/// pickup notice.
pub open spec fn is_currency(identity: u32) -> bool {
    identity == 2 || identity == 3 || identity == 4 || identity == 31 || identity == 32
}

/// `param1` after the currency check: a currency-class identity gets the
/// suppress-notice bit.
pub open spec fn after_currency(param1: u32) -> u32 {
    if is_currency(param1 & 0x1FF) {
        param1 | SUPPRESS_NOTICE_BIT
    } else {
        param1
    }
}

/// True when a carried custom flag is already set in the external store.
pub open spec fn gate_fires(param2: u32, flag_is_on: bool) -> bool {
    params::raw_flag(param2) != params::NO_CUSTOM_FLAG && flag_is_on
}

/// Gating of `param1`: where a carried custom flag is already set, the
/// identity bits fall back to the stored original identity (remapped) and
/// the notice is suppressed.
pub open spec fn after_gate(param1: u32, param2: u32, flag_is_on: bool) -> u32 {
    if gate_fires(param2, flag_is_on) {
        (param1 & !0x1FFu32) | params::remap_original_item(params::raw_original_item(param2))
            | SUPPRESS_NOTICE_BIT
    } else {
        param1
    }
}

/// `param1` after the whole pass, in order: defensive despawn, currency
/// notice suppression, flag gating.
pub open spec fn pass_param1(param1: u32, param2: u32, despawn: bool, flag_is_on: bool) -> u32 {
    after_gate(after_currency(after_despawn(param1, despawn)), param2, flag_is_on)
}

/// The record after the whole on-placement pass: `param1` rewritten as
/// `pass_param1` says, then — only for a record that carries a custom flag
/// that is not set — the horizontal fix, then the vertical fix.
pub open spec fn spec_checked_record(r: dAcItem, despawn: bool, flag_is_on: bool) -> dAcItem {
    let mid = dAcItem { param1: pass_param1(r.param1, r.param2, despawn, flag_is_on), ..r };
    let after_h = if params::raw_flag(r.param2) != params::NO_CUSTOM_FLAG && !flag_is_on {
        offsets::h_fixed(mid)
    } else {
        mid
    };
    offsets::y_fixed(after_h)
}

/// The displacement the on-placement pass orders, if its horizontal fix
/// fires.
pub open spec fn spec_checked_move(r: dAcItem, despawn: bool, flag_is_on: bool) -> Option<
    HorizontalMove,
> {
    if params::raw_flag(r.param2) != params::NO_CUSTOM_FLAG && !flag_is_on {
        offsets::h_move(dAcItem { param1: pass_param1(r.param1, r.param2, despawn, flag_is_on), ..r })
    } else {
        None
    }
}

/// The on-placement pass over one collectible record.
///
/// The host supplies the current stage name, the stage's story-progress
/// flag, whether the record's z coordinate equals a despawn sentinel, and
/// the answer of the flag store for the flag `flag_query` named (`false`
/// where nothing was to be asked; the result does not depend on it then).
/// The record's `param1` is rewritten, the applicable placement fix is
/// applied, and any ordered horizontal displacement is returned for the
/// host to project onto the position.
pub fn check_and_modify_item_actor(
    record: &mut dAcItem,
    stage: &[u8; 8],
    stage_story_done: bool,
    z_is_sentinel: bool,
    flag_is_on: bool,
) -> (mv: Option<HorizontalMove>)
    ensures
        *final(record) == spec_checked_record(
            *old(record),
            spec_despawn(stage@, stage_story_done, z_is_sentinel),
            flag_is_on,
        ),
        mv == spec_checked_move(
            *old(record),
            spec_despawn(stage@, stage_story_done, z_is_sentinel),
            flag_is_on,
        ),
{
    let (flag, _sceneindex, _flag_space_trigger, original_itemid) =
        params::unpack_custom_item_params(record.param2);

    // defensive despawn of placements that must not exist yet
    if despawn_applies(stage, stage_story_done, z_is_sentinel) {
        record.param1 = record.param1 & !0x1FFu32;
    }

    // currency never shows a pickup notice
    match record.param1 & 0x1FF {
        2 | 3 | 4 | 31 | 32 => {
            record.param1 = record.param1 | SUPPRESS_NOTICE_BIT;
        },
        _ => {},
    }

    let mut mv: Option<HorizontalMove> = None;
    if flag != params::NO_CUSTOM_FLAG && flag_is_on {
        // the custom reward was already granted: silently fall back to the
        // identity this collectible originally replaced
        record.param1 = (record.param1 & !0x1FFu32) | original_itemid | SUPPRESS_NOTICE_BIT;
    } else if flag != params::NO_CUSTOM_FLAG {
        mv = offsets::fix_freestanding_item_horizontal_offset(record);
    }

    offsets::fix_freestanding_item_y_offset(record);

    mv
}

/// A record whose custom flag the store reports as set leaves the pass
/// fallen back: its identity bits hold the remapped original identity and its
/// pickup notice is suppressed, whatever else the record held.
pub proof fn lemma_gate_fallback_record(r: dAcItem, despawn: bool)
    requires
        params::raw_flag(r.param2) != params::NO_CUSTOM_FLAG,
    ensures
        spec_checked_record(r, despawn, true).param1 & 0x1FF == params::remap_original_item(
            params::raw_original_item(r.param2),
        ),
        spec_checked_record(r, despawn, true).param1 & SUPPRESS_NOTICE_BIT != 0,
{
    let p1 = after_currency(after_despawn(r.param1, despawn));
    let orig = params::remap_original_item(params::raw_original_item(r.param2));
    let gated = after_gate(p1, r.param2, true);
    params::lemma_raw_field_bounds(r.param2);
    assert(orig <= 63);
    assert(gated & 0x1FFu32 == orig && gated & 0x200u32 != 0) by (bit_vector)
        requires
            gated == (p1 & !0x1FFu32) | orig | 0x200u32,
            orig <= 63,
    ;
    let mid = dAcItem { param1: gated, ..r };
    assert(offsets::y_fixed(mid).param1 == gated);
}

/// A currency-class identity always ends the pass with its pickup notice
/// suppressed, whatever the flag store answered; only the defensive despawn
/// (which zeroes the identity outright) is excepted.
pub proof fn lemma_currency_always_suppressed(r: dAcItem, flag_is_on: bool)
    requires
        is_currency(r.param1 & 0x1FF),
    ensures
        spec_checked_record(r, false, flag_is_on).param1 & SUPPRESS_NOTICE_BIT != 0,
{
    let p1 = r.param1;
    let suppressed = after_currency(after_despawn(p1, false));
    assert(suppressed == p1 | 0x200u32);
    assert((p1 | 0x200u32) & 0x200u32 != 0) by (bit_vector);
    let gated = after_gate(suppressed, r.param2, flag_is_on);
    if gate_fires(r.param2, flag_is_on) {
        let orig = params::remap_original_item(params::raw_original_item(r.param2));
        assert(gated & 0x200u32 != 0) by (bit_vector)
            requires
                gated == (suppressed & !0x1FFu32) | orig | 0x200u32,
        ;
    }
    let mid = dAcItem { param1: gated, ..r };
    // neither placement fix touches param1
    assert(offsets::h_fixed(mid).param1 == gated);
    assert(offsets::y_fixed(offsets::h_fixed(mid)).param1 == gated);
    assert(offsets::y_fixed(mid).param1 == gated);
}

} // verus!
