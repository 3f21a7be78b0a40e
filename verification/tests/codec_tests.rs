use itemfix::params::{pack_custom_item_params, unpack_custom_item_params, NO_CUSTOM_FLAG};

#[test]
fn sentinel_flag_reads_regardless_of_other_bits() {
    // flag field all-ones is the sentinel, whatever the rest of the word holds
    let (flag, _, _, _) = unpack_custom_item_params(0x0000_7F00);
    assert_eq!(flag, NO_CUSTOM_FLAG);
    let (flag, _, _, _) = unpack_custom_item_params(0xFFFF_FFFF);
    assert_eq!(flag, NO_CUSTOM_FLAG);
    let (flag, _, _, _) = unpack_custom_item_params(0xFF55_7FAA);
    assert_eq!(flag, NO_CUSTOM_FLAG);
}

#[test]
fn fields_extract_independently() {
    // only the flag field set
    let (flag, scene, trigger, orig) = unpack_custom_item_params(0x2A << 8);
    assert_eq!(flag, 0x2A);
    assert_eq!(scene, 6); // stored code 0 remaps to scene 6
    assert_eq!(trigger, 0);
    assert_eq!(orig, 0); // stored code 0 passes through

    // only the trigger bit set
    let (flag, scene, trigger, orig) = unpack_custom_item_params(1 << 17);
    assert_eq!(flag, 0);
    assert_eq!(scene, 6);
    assert_eq!(trigger, 1);
    assert_eq!(orig, 0);

    // bits outside every field leave all fields zero
    let (flag, scene, trigger, orig) = unpack_custom_item_params(0xFF00_00FF);
    assert_eq!(flag, 0);
    assert_eq!(scene, 6);
    assert_eq!(trigger, 0);
    assert_eq!(orig, 0);
}

#[test]
fn scene_codes_remap_to_reserved_scenes() {
    for (code, scene) in [(0u32, 6u32), (1, 13), (2, 16), (3, 19)] {
        let (_, got, _, _) = unpack_custom_item_params(code << 15);
        assert_eq!(got, scene);
    }
}

#[test]
fn original_item_codes_remap_to_identities() {
    for (code, identity) in [(1u32, 42u32), (2, 2), (3, 3), (4, 4), (5, 34)] {
        let (_, _, _, got) = unpack_custom_item_params(code << 18);
        assert_eq!(got, identity);
    }
    // codes outside the table pass through unchanged
    let (_, _, _, got) = unpack_custom_item_params(7 << 18);
    assert_eq!(got, 7);
    let (_, _, _, got) = unpack_custom_item_params(0x3F << 18);
    assert_eq!(got, 0x3F);
}

#[test]
fn pack_then_unpack_round_trips() {
    let word = pack_custom_item_params(0x2A, 2, 1, 5);
    let (flag, scene, trigger, orig) = unpack_custom_item_params(word);
    assert_eq!(flag, 0x2A);
    assert_eq!(scene, 16); // stored code 2 remaps to scene 16
    assert_eq!(trigger, 1);
    assert_eq!(orig, 34); // stored code 5 remaps to the rupoor identity

    let word = pack_custom_item_params(0, 0, 0, 0);
    assert_eq!(word, 0);

    let word = pack_custom_item_params(0x7F, 3, 1, 0x3F);
    let (flag, scene, trigger, orig) = unpack_custom_item_params(word);
    assert_eq!(flag, NO_CUSTOM_FLAG);
    assert_eq!(scene, 19);
    assert_eq!(trigger, 1);
    assert_eq!(orig, 0x3F);
}
