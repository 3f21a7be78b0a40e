//! Entry-point decisions for the grant moments the external engine invokes:
//! what an obtained collectible does to the bookkeeping stores and the flag
//! store, which crest rewards are due, and the small computed values the
//! host needs to spawn a reward or arm a trigger.
//!
//! Everything externally effectful — spawning the reward object, reading and
//! writing the engine's flag stores — stays with the host, which acts on the
//! values returned here.

use vstd::prelude::*;

use crate::dungeon;
use crate::dungeon::{Category, GlobalDungeonFlags, LocalDungeonFlags};
use crate::gate;
use crate::gate::FlagLocator;
use crate::params;
use crate::records::dAcItem;

verus! {

/// Fixed parameter bits OR-ed onto a resolved identity when the reward
/// object is spawned.
pub const SPAWN_PARAM_BITS: u32 = 0x5BFC00;

/// Parameter word handed to the external spawn service for a resolved
/// reward identity.
pub fn item_spawn_params(resolved_itemid: u32) -> (p: u32)
    ensures
        p == resolved_itemid | SPAWN_PARAM_BITS,
{
    resolved_itemid | SPAWN_PARAM_BITS
}

/// The on-pickup pass over one collectible record.
///
/// Updates the dungeon bookkeeping exactly as [`dungeon::record`] does for
/// the record's identity, names the custom flag the host must now set in the
/// external store (none for the no-custom-flag sentinel), and returns the
/// resolved identity the engine reads back.
pub fn handle_custom_item_get(
    record: &dAcItem,
    current_scene: u16,
    local: &mut LocalDungeonFlags,
    global: &mut GlobalDungeonFlags,
) -> (r: (u16, Option<FlagLocator>))
    ensures
        dungeon::spec_classify(record.itemid) == Category::NotDungeon ==> {
            &&& *final(local) == *old(local)
            &&& *final(global) == *old(global)
        },
        dungeon::spec_classify(record.itemid) != Category::NotDungeon ==> {
            &&& current_scene == dungeon::spec_canonical_scene(record.itemid)
                ==> final(local).words@ == dungeon::local_after(
                    old(local).words@,
                    dungeon::spec_classify(record.itemid),
                )
            &&& current_scene != dungeon::spec_canonical_scene(record.itemid) ==> *final(local)
                == *old(local)
            &&& final(global).entries@ == old(global).entries@.update(
                dungeon::spec_canonical_scene(record.itemid) as int,
                dungeon::entry_after(
                    old(global).entries@[dungeon::spec_canonical_scene(record.itemid) as int],
                    dungeon::spec_classify(record.itemid),
                ),
            )
        },
        params::raw_flag(record.param2) == params::NO_CUSTOM_FLAG ==> r.1 == None::<FlagLocator>,
        params::raw_flag(record.param2) != params::NO_CUSTOM_FLAG ==> r.1 == Some(
            gate::spec_flag_locator(record.param2),
        ),
        r.0 == record.final_determined_itemid,
{
    dungeon::record(record.itemid, current_scene, local, global);
    let flag_to_set = gate::flag_query(record.param2);
    (record.final_determined_itemid, flag_to_set)
}

/// The rewards due when the crest is struck: up to three, each with the
/// local scene flag that marks it granted.
#[derive(Clone, Copy, Debug, PartialEq, Eq, Structural)]
pub struct CrestRewards {
    /// Reward granted unconditionally, under scene flag 50.
    pub first: Option<u8>,
    /// Reward gated on the second equipment tier, under scene flag 51.
    pub second: Option<u8>,
    /// Reward gated on the third equipment tier, under scene flag 52.
    pub third: Option<u8>,
}

/// Local scene flag marking the first crest reward granted.
pub const CREST_FLAG_FIRST: u16 = 50;

/// Local scene flag marking the second crest reward granted.
pub const CREST_FLAG_SECOND: u16 = 51;

/// Local scene flag marking the third crest reward granted.
pub const CREST_FLAG_THIRD: u16 = 52;

/// Decides the crest-hit rewards from the crest record's two parameter
/// words, the equipped tier, and the three already-granted flags. A reward
/// is due exactly when its flag is unset and the tier suffices; each reward
/// identity sits in its fixed byte of a parameter word. The host spawns each
/// due reward and sets its flag.
pub fn crest_hit_rewards(
    param1: u32,
    param2: u32,
    equipped_tier: u8,
    first_granted: bool,
    second_granted: bool,
    third_granted: bool,
) -> (g: CrestRewards)
    ensures
        g.first == if !first_granted {
            Some(((param1 >> 24) & 0xFF) as u8)
        } else {
            None::<u8>
        },
        g.second == if equipped_tier >= 2 && !second_granted {
            Some(((param1 >> 16) & 0xFF) as u8)
        } else {
            None::<u8>
        },
        g.third == if equipped_tier >= 3 && !third_granted {
            Some(((param2 >> 24) & 0xFF) as u8)
        } else {
            None::<u8>
        },
{
    let mut rewards = CrestRewards { first: None, second: None, third: None };

    if !first_granted {
        rewards.first = Some(((param1 >> 24) & 0xFF) as u8);
    }
    if equipped_tier < 2 {
        return rewards;
    }

    if !second_granted {
        rewards.second = Some(((param1 >> 16) & 0xFF) as u8);
    }
    if equipped_tier < 3 {
        return rewards;
    }

    if !third_granted {
        rewards.third = Some(((param2 >> 24) & 0xFF) as u8);
    }
    rewards
}

/// Whether a goddess wall may activate: the harp is not in (or has left)
/// continuous strumming, and the required song is known.
pub fn activation_checks_for_goddess_walls(
    continuous_strumming: u8,
    other_harp_state: u8,
    has_ballad: bool,
) -> (r: bool)
    ensures
        r == ((continuous_strumming == 0 || other_harp_state != 0) && has_ballad),
{
    if continuous_strumming == 0 || other_harp_state != 0 {
        if has_ballad {
            return true;
        }
    }
    false
}

} // verus!
