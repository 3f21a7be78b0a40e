//! Dungeon-item classification and completion bookkeeping.
//!
//! Identities are classified into boss keys, small keys and dungeon maps by
//! disjoint ranges; everything else is not dungeon-relevant. When a dungeon
//! item is obtained, a per-session local store is updated only if the item
//! was obtained in its canonical scene, while the persisted global table is
//! updated at the canonical scene unconditionally.

use vstd::prelude::*;

verus! {

/// Bit accumulated in a bitmask word when a boss key is obtained.
pub const BOSS_KEY_BIT: u16 = 0x80;

/// Bit accumulated in a bitmask word when a dungeon map is obtained.
pub const MAP_BIT: u16 = 0x02;

/// Canonical-scene value of the defensive unused boss-key slot; it is never
/// reached through a dungeon-relevant identity.
pub const UNUSED_SCENE: u16 = 0xFF;

/// Number of words in the session-local dungeon flag store.
pub const LOCAL_WORD_COUNT: usize = 8;

/// Number of per-scene entries in the persisted global table.
pub const GLOBAL_SCENE_COUNT: usize = 22;

/// What kind of dungeon item an identity is, if any.
#[derive(Clone, Copy, Debug, PartialEq, Eq, Structural)]
pub enum Category {
    /// Not a dungeon-relevant identity: bookkeeping is skipped entirely.
    NotDungeon,
    /// Boss keys: identities 25..=27 and 29..=31.
    BossKey,
    /// Small keys: identities 200..=206.
    SmallKey,
    /// Dungeon maps: identities 207..=213.
    DungeonMap,
}

/// Boss-key identity range (28 is deliberately excluded).
pub open spec fn is_boss_key(identity: u16) -> bool {
    (25 <= identity && identity <= 27) || (29 <= identity && identity <= 31)
}

/// Small-key identity range.
pub open spec fn is_small_key(identity: u16) -> bool {
    200 <= identity && identity <= 206
}

/// Dungeon-map identity range.
pub open spec fn is_dungeon_map(identity: u16) -> bool {
    207 <= identity && identity <= 213
}

/// Total classification of the identity domain.
pub open spec fn spec_classify(identity: u16) -> Category {
    if is_boss_key(identity) {
        Category::BossKey
    } else if is_small_key(identity) {
        Category::SmallKey
    } else if is_dungeon_map(identity) {
        Category::DungeonMap
    } else {
        Category::NotDungeon
    }
}

/// Classifies an identity code; total over all identities, and each
/// non-trivial category comes exactly from its own range.
pub fn classify(identity: u16) -> (c: Category)
    ensures
        c == spec_classify(identity),
        c == Category::BossKey <==> is_boss_key(identity),
        c == Category::SmallKey <==> is_small_key(identity),
        c == Category::DungeonMap <==> is_dungeon_map(identity),
{
    if (identity >= 25 && identity <= 27) || (identity >= 29 && identity <= 31) {
        Category::BossKey
    } else if identity >= 200 && identity <= 206 {
        Category::SmallKey
    } else if identity >= 207 && identity <= 213 {
        Category::DungeonMap
    } else {
        Category::NotDungeon
    }
}

/// The three dungeon-item ranges are pairwise disjoint over the whole
/// identity domain, so `spec_classify` never has to break a tie.
pub proof fn lemma_categories_disjoint(identity: u16)
    ensures
        !(is_boss_key(identity) && is_small_key(identity)),
        !(is_boss_key(identity) && is_dungeon_map(identity)),
        !(is_small_key(identity) && is_dungeon_map(identity)),
{
}

/// Canonical scene index of a dungeon item: the scene its completion is
/// accounted to. Identities outside the dungeon ranges map to the unused
/// sentinel, mirroring the defensive default of the lookup tables.
pub open spec fn spec_canonical_scene(identity: u16) -> u16 {
    if identity == 25 {
        12
    } else if identity == 26 {
        15
    } else if identity == 27 {
        18
    } else if identity == 29 {
        11
    } else if identity == 30 {
        14
    } else if identity == 31 {
        17
    } else if identity == 200 {
        11
    } else if identity == 201 {
        17
    } else if identity == 202 {
        12
    } else if identity == 203 {
        15
    } else if identity == 204 {
        18
    } else if identity == 205 {
        20
    } else if identity == 206 {
        9
    } else if identity == 207 {
        11
    } else if identity == 208 {
        14
    } else if identity == 209 {
        17
    } else if identity == 210 {
        12
    } else if identity == 211 {
        15
    } else if identity == 212 {
        18
    } else if identity == 213 {
        20
    } else {
        UNUSED_SCENE
    }
}

/// Looks up the canonical scene of an identity. Every dungeon-relevant
/// identity resolves to a real scene index below the global table's size;
/// anything else yields the unused sentinel.
pub fn dungeon_item_scene_index(identity: u16) -> (scene: u16)
    ensures
        scene == spec_canonical_scene(identity),
        spec_classify(identity) != Category::NotDungeon ==> scene < 22,
        spec_classify(identity) == Category::NotDungeon ==> scene == UNUSED_SCENE,
{
    match identity {
        // boss keys; the slot between 27 and 29 is unused and falls through
        // to the defensive sentinel
        25 => 12,
        26 => 15,
        27 => 18,
        29 => 11,
        30 => 14,
        31 => 17,
        // small keys
        200 => 11,
        201 => 17,
        202 => 12,
        203 => 15,
        204 => 18,
        205 => 20,
        206 => 9,
        // dungeon maps
        207 => 11,
        208 => 14,
        209 => 17,
        210 => 12,
        211 => 15,
        212 => 18,
        213 => 20,
        _ => UNUSED_SCENE,
    }
}

/// Session-local completion store: word 0 accumulates the boss-key and map
/// bits, word 1 counts small keys collected in the current scene; the
/// remaining words belong to the external engine and are never touched.
#[derive(Clone, Copy, Debug, PartialEq, Eq)]
pub struct LocalDungeonFlags {
    pub words: [u16; 8],
}

/// One entry of the persisted global table: a completion bitmask and a
/// small-key counter for a single dungeon scene.
#[derive(Clone, Copy, Debug, PartialEq, Eq, Structural)]
pub struct SceneFlagEntry {
    pub mask: u16,
    pub counter: u16,
}

/// Persisted global completion table, indexed by canonical scene.
#[derive(Clone, Copy, Debug, PartialEq, Eq)]
pub struct GlobalDungeonFlags {
    pub entries: [SceneFlagEntry; 22],
}

/// Effect of obtaining one item of the given category on a local store's
/// word sequence: boss keys and maps OR their bit into word 0, small keys
/// bump the counter in word 1 (wrapping, as 16-bit storage must).
pub open spec fn local_after(words: Seq<u16>, category: Category) -> Seq<u16> {
    match category {
        Category::BossKey => words.update(0, (words[0] | BOSS_KEY_BIT) as u16),
        Category::DungeonMap => words.update(0, (words[0] | MAP_BIT) as u16),
        Category::SmallKey => words.update(1, ((words[1] + 1) % 0x10000) as u16),
        Category::NotDungeon => words,
    }
}

/// Effect of obtaining one item of the given category on a global table
/// entry: the same OR-versus-increment policy as the local store.
pub open spec fn entry_after(entry: SceneFlagEntry, category: Category) -> SceneFlagEntry {
    match category {
        Category::BossKey => SceneFlagEntry { mask: (entry.mask | BOSS_KEY_BIT) as u16, ..entry },
        Category::DungeonMap => SceneFlagEntry { mask: (entry.mask | MAP_BIT) as u16, ..entry },
        Category::SmallKey => SceneFlagEntry {
            counter: ((entry.counter + 1) % 0x10000) as u16,
            ..entry
        },
        Category::NotDungeon => entry,
    }
}

/// Records the obtaining of an item.
///
/// Dungeon-irrelevant identities leave both stores untouched. For a dungeon
/// item, the local store is updated only when the item was obtained in its
/// canonical scene, while the global table entry at the canonical scene is
/// updated unconditionally: the local store answers "done here, where it was
/// meant to happen", the global table tracks cross-session completion even
/// for relocated items.
pub fn record(
    identity: u16,
    current_scene: u16,
    local: &mut LocalDungeonFlags,
    global: &mut GlobalDungeonFlags,
)
    ensures
        spec_classify(identity) == Category::NotDungeon ==> {
            &&& *final(local) == *old(local)
            &&& *final(global) == *old(global)
        },
        spec_classify(identity) != Category::NotDungeon ==> {
            &&& current_scene == spec_canonical_scene(identity) ==> final(local).words@
                == local_after(old(local).words@, spec_classify(identity))
            &&& current_scene != spec_canonical_scene(identity) ==> *final(local) == *old(local)
            &&& final(global).entries@ == old(global).entries@.update(
                spec_canonical_scene(identity) as int,
                entry_after(
                    old(global).entries@[spec_canonical_scene(identity) as int],
                    spec_classify(identity),
                ),
            )
        },
{
    let category = classify(identity);
    if matches!(category, Category::NotDungeon) {
        return ;
    }
    let scene = dungeon_item_scene_index(identity);
    let scene_idx: usize = scene as usize;

    if current_scene == scene {
        match category {
            Category::BossKey => {
                local.words[0] = local.words[0] | BOSS_KEY_BIT;
            },
            Category::DungeonMap => {
                local.words[0] = local.words[0] | MAP_BIT;
            },
            Category::SmallKey => {
                local.words[1] = local.words[1].wrapping_add(1);
            },
            Category::NotDungeon => {},
        }
    }

    let entry = global.entries[scene_idx];
    match category {
        Category::BossKey => {
            global.entries[scene_idx] = SceneFlagEntry { mask: entry.mask | BOSS_KEY_BIT, ..entry };
        },
        Category::DungeonMap => {
            global.entries[scene_idx] = SceneFlagEntry { mask: entry.mask | MAP_BIT, ..entry };
        },
        Category::SmallKey => {
            global.entries[scene_idx] = SceneFlagEntry {
                counter: entry.counter.wrapping_add(1),
                ..entry
            };
        },
        Category::NotDungeon => {},
    }
}

} // verus!
