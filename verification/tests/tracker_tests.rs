use itemfix::dungeon::{
    classify, dungeon_item_scene_index, record, Category, GlobalDungeonFlags, LocalDungeonFlags,
    SceneFlagEntry,
};

fn empty_local() -> LocalDungeonFlags {
    LocalDungeonFlags { words: [0; 8] }
}

fn empty_global() -> GlobalDungeonFlags {
    GlobalDungeonFlags { entries: [SceneFlagEntry { mask: 0, counter: 0 }; 22] }
}

#[test]
fn classify_covers_the_identity_domain() {
    assert_eq!(classify(0), Category::NotDungeon);
    assert_eq!(classify(24), Category::NotDungeon);
    assert_eq!(classify(25), Category::BossKey);
    assert_eq!(classify(27), Category::BossKey);
    assert_eq!(classify(28), Category::NotDungeon); // the gap in the boss-key range
    assert_eq!(classify(29), Category::BossKey);
    assert_eq!(classify(31), Category::BossKey);
    assert_eq!(classify(32), Category::NotDungeon);
    assert_eq!(classify(199), Category::NotDungeon);
    assert_eq!(classify(200), Category::SmallKey);
    assert_eq!(classify(206), Category::SmallKey);
    assert_eq!(classify(207), Category::DungeonMap);
    assert_eq!(classify(213), Category::DungeonMap);
    assert_eq!(classify(214), Category::NotDungeon);
    assert_eq!(classify(511), Category::NotDungeon);
}

#[test]
fn canonical_scenes_follow_the_tables() {
    assert_eq!(dungeon_item_scene_index(25), 12);
    assert_eq!(dungeon_item_scene_index(26), 15);
    assert_eq!(dungeon_item_scene_index(27), 18);
    assert_eq!(dungeon_item_scene_index(29), 11);
    assert_eq!(dungeon_item_scene_index(30), 14);
    assert_eq!(dungeon_item_scene_index(31), 17);
    assert_eq!(dungeon_item_scene_index(200), 11);
    assert_eq!(dungeon_item_scene_index(206), 9);
    assert_eq!(dungeon_item_scene_index(207), 11);
    assert_eq!(dungeon_item_scene_index(213), 20);
    // identities outside the dungeon ranges resolve to the unused sentinel
    assert_eq!(dungeon_item_scene_index(28), 0xFF);
    assert_eq!(dungeon_item_scene_index(5), 0xFF);
}

#[test]
fn boss_key_in_canonical_scene_updates_both_stores() {
    let mut local = empty_local();
    let mut global = empty_global();
    record(25, 12, &mut local, &mut global);
    assert_eq!(local.words[0], 0x80);
    assert_eq!(local.words[1], 0);
    assert_eq!(global.entries[12].mask, 0x80);
    assert_eq!(global.entries[12].counter, 0);
    for scene in 0..22 {
        if scene != 12 {
            assert_eq!(global.entries[scene], SceneFlagEntry { mask: 0, counter: 0 });
        }
    }
}

#[test]
fn boss_key_elsewhere_updates_only_the_global_table() {
    let mut local = empty_local();
    let mut global = empty_global();
    record(25, 3, &mut local, &mut global);
    assert_eq!(local.words, [0; 8]);
    assert_eq!(global.entries[12].mask, 0x80);
}

#[test]
fn small_key_elsewhere_counts_only_globally() {
    let mut local = empty_local();
    let mut global = empty_global();
    // identity 200's canonical scene is 11; obtain it somewhere else
    record(200, 5, &mut local, &mut global);
    assert_eq!(local.words[1], 0);
    assert_eq!(global.entries[11].counter, 1);
    assert_eq!(global.entries[11].mask, 0);
}

#[test]
fn small_key_in_canonical_scene_counts_in_both_stores() {
    let mut local = empty_local();
    let mut global = empty_global();
    record(206, 9, &mut local, &mut global);
    assert_eq!(local.words[0], 0);
    assert_eq!(local.words[1], 1);
    assert_eq!(global.entries[9].counter, 1);
    record(206, 9, &mut local, &mut global);
    assert_eq!(local.words[1], 2);
    assert_eq!(global.entries[9].counter, 2);
}

#[test]
fn map_sets_its_own_mask_bit() {
    let mut local = empty_local();
    let mut global = empty_global();
    record(210, 12, &mut local, &mut global);
    assert_eq!(local.words[0], 0x02);
    assert_eq!(global.entries[12].mask, 0x02);
    // the boss-key bit of the same scene accumulates alongside
    record(25, 12, &mut local, &mut global);
    assert_eq!(local.words[0], 0x82);
    assert_eq!(global.entries[12].mask, 0x82);
}

#[test]
fn non_dungeon_identity_touches_nothing() {
    let mut local = empty_local();
    let mut global = empty_global();
    record(100, 12, &mut local, &mut global);
    assert_eq!(local, empty_local());
    assert_eq!(global, empty_global());
    record(28, 12, &mut local, &mut global);
    assert_eq!(local, empty_local());
    assert_eq!(global, empty_global());
}
