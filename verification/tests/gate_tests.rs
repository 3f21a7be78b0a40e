use itemfix::dungeon::{GlobalDungeonFlags, LocalDungeonFlags, SceneFlagEntry};
use itemfix::gate::{
    check_and_modify_item_actor, despawn_applies, flag_query, FlagLocator, FlagSpace,
};
use itemfix::grants::{
    activation_checks_for_goddess_walls, crest_hit_rewards, handle_custom_item_get,
    item_spawn_params, CrestRewards,
};
use itemfix::params::pack_custom_item_params;
use itemfix::records::dAcItem;

const PLAIN_STAGE: [u8; 8] = [b'F', b'0', b'0', b'0', 0, 0, 0, 0];
const DESPAWN_STAGE: [u8; 8] = [b'F', b'3', b'0', b'0', 0, 0, 0, 0];

fn record_with(param1: u32, param2: u32) -> dAcItem {
    dAcItem {
        itemid: (param1 & 0x1FF) as u16,
        param1,
        param2,
        rot_x: 0,
        rot_y: 0,
        rot_z: 0,
        freestanding_y_offset: 0,
        final_determined_itemid: (param1 & 0x1FF) as u16,
    }
}

#[test]
fn sentinel_flag_never_queries_the_store() {
    // the flag field all-ones means "no custom flag": nothing to consult
    assert_eq!(flag_query(pack_custom_item_params(0x7F, 2, 1, 5)), None);
    assert_eq!(flag_query(0xFFFF_FFFF), None);
}

#[test]
fn flag_query_names_the_scoped_flag() {
    let q = flag_query(pack_custom_item_params(5, 1, 0, 0));
    assert_eq!(q, Some(FlagLocator { space: FlagSpace::Scene, scene: 13, flag: 5 }));
    let q = flag_query(pack_custom_item_params(0x26, 3, 1, 2));
    assert_eq!(q, Some(FlagLocator { space: FlagSpace::Dungeon, scene: 19, flag: 0x26 }));
}

#[test]
fn set_flag_restores_the_replaced_identity_silently() {
    // a boss key standing in for original code 1 (the stamina fruit, identity 42)
    let param2 = pack_custom_item_params(5, 0, 0, 1);
    let mut r = record_with(25, param2);
    let mv = check_and_modify_item_actor(&mut r, &PLAIN_STAGE, true, false, true);
    assert_eq!(r.param1 & 0x1FF, 42);
    assert_ne!(r.param1 & 0x200, 0);
    assert_eq!(mv, None);
}

#[test]
fn unset_flag_leaves_the_identity_and_fixes_placement() {
    let param2 = pack_custom_item_params(5, 0, 0, 1);
    let mut r = record_with(25, param2);
    r.rot_x = 0x4000; // sideways: the horizontal fix fires
    r.rot_y = 0x1000;
    let mv = check_and_modify_item_actor(&mut r, &PLAIN_STAGE, true, false, false);
    assert_eq!(r.param1 & 0x1FF, 25);
    assert_eq!(r.param1 & 0x200, 0);
    // boss key 25: magnitude 50, x delta 0xEF00
    let mv = mv.expect("sideways custom-flag item must order a displacement");
    assert_eq!(mv.facing, 0x1000);
    assert_eq!(mv.magnitude, 50);
    assert_eq!(r.rot_x, 0xEF00);
}

#[test]
fn plain_item_gets_no_horizontal_fix_even_when_tilted() {
    // no custom flag: the pass never reaches the horizontal fix
    let mut r = record_with(25, 0x0000_7F00);
    r.rot_x = 0x4000;
    r.rot_y = 0x1000;
    let mv = check_and_modify_item_actor(&mut r, &PLAIN_STAGE, true, false, false);
    assert_eq!(mv, None);
    assert_eq!(r.rot_x, 0x4000);
}

#[test]
fn currency_is_always_silenced() {
    for identity in [2u32, 3, 4, 31, 32] {
        // flag unset
        let mut r = record_with(identity, pack_custom_item_params(5, 0, 0, 1));
        check_and_modify_item_actor(&mut r, &PLAIN_STAGE, true, false, false);
        assert_ne!(r.param1 & 0x200, 0);
        // flag set
        let mut r = record_with(identity, pack_custom_item_params(5, 0, 0, 1));
        check_and_modify_item_actor(&mut r, &PLAIN_STAGE, true, false, true);
        assert_ne!(r.param1 & 0x200, 0);
        // no custom flag at all
        let mut r = record_with(identity, 0x0000_7F00);
        check_and_modify_item_actor(&mut r, &PLAIN_STAGE, true, false, false);
        assert_ne!(r.param1 & 0x200, 0);
    }
    // a non-currency identity stays audible
    let mut r = record_with(5, 0x0000_7F00);
    check_and_modify_item_actor(&mut r, &PLAIN_STAGE, true, false, false);
    assert_eq!(r.param1 & 0x200, 0);
}

#[test]
fn early_placements_despawn_on_the_fixed_stage() {
    assert!(despawn_applies(&DESPAWN_STAGE, false, true));
    assert!(!despawn_applies(&DESPAWN_STAGE, true, true));
    assert!(!despawn_applies(&DESPAWN_STAGE, false, false));
    assert!(!despawn_applies(&PLAIN_STAGE, false, true));

    let mut r = record_with(42, 0x0000_7F00);
    check_and_modify_item_actor(&mut r, &DESPAWN_STAGE, false, true, false);
    assert_eq!(r.param1 & 0x1FF, 0);

    let mut r = record_with(42, 0x0000_7F00);
    check_and_modify_item_actor(&mut r, &DESPAWN_STAGE, true, true, false);
    assert_eq!(r.param1 & 0x1FF, 42);
}

#[test]
fn on_pickup_pass_books_and_names_the_flag_to_set() {
    let param2 = pack_custom_item_params(9, 2, 1, 0);
    let mut r = record_with(25, param2);
    r.final_determined_itemid = 25;
    let mut local = LocalDungeonFlags { words: [0; 8] };
    let mut global = GlobalDungeonFlags { entries: [SceneFlagEntry { mask: 0, counter: 0 }; 22] };
    // obtained in its canonical scene, 12
    let (final_id, to_set) = handle_custom_item_get(&r, 12, &mut local, &mut global);
    assert_eq!(final_id, 25);
    assert_eq!(to_set, Some(FlagLocator { space: FlagSpace::Dungeon, scene: 16, flag: 9 }));
    assert_eq!(local.words[0], 0x80);
    assert_eq!(global.entries[12].mask, 0x80);

    // no custom flag: bookkeeping still runs, nothing to set
    let r = record_with(200, 0x0000_7F00);
    let (_, to_set) = handle_custom_item_get(&r, 0, &mut local, &mut global);
    assert_eq!(to_set, None);
    assert_eq!(local.words[1], 0); // scene 0 is not identity 200's canonical scene
    assert_eq!(global.entries[11].counter, 1);
}

#[test]
fn crest_rewards_follow_tier_and_flags() {
    let param1 = 0xAB_CD_00_00;
    let param2 = 0xEF_00_00_00;
    assert_eq!(
        crest_hit_rewards(param1, param2, 1, false, false, false),
        CrestRewards { first: Some(0xAB), second: None, third: None }
    );
    assert_eq!(
        crest_hit_rewards(param1, param2, 2, false, false, false),
        CrestRewards { first: Some(0xAB), second: Some(0xCD), third: None }
    );
    assert_eq!(
        crest_hit_rewards(param1, param2, 3, false, false, false),
        CrestRewards { first: Some(0xAB), second: Some(0xCD), third: Some(0xEF) }
    );
    // already-granted rewards are withheld, later tiers still checked
    assert_eq!(
        crest_hit_rewards(param1, param2, 3, true, false, true),
        CrestRewards { first: None, second: Some(0xCD), third: None }
    );
    assert_eq!(
        crest_hit_rewards(param1, param2, 3, true, true, true),
        CrestRewards { first: None, second: None, third: None }
    );
}

#[test]
fn spawn_params_carry_the_fixed_bits() {
    assert_eq!(item_spawn_params(0), 0x5BFC00);
    assert_eq!(item_spawn_params(42), 42 | 0x5BFC00);
}

#[test]
fn goddess_wall_activation_needs_the_song() {
    assert!(activation_checks_for_goddess_walls(0, 0, true));
    assert!(activation_checks_for_goddess_walls(1, 5, true));
    assert!(!activation_checks_for_goddess_walls(1, 0, true));
    assert!(!activation_checks_for_goddess_walls(0, 0, false));
    assert!(!activation_checks_for_goddess_walls(1, 0, false));
}
