//! Table-driven placement corrections for freestanding collectibles.
//!
//! Two independent corrections, each total over the identity domain with an
//! all-zero default. The vertical fix applies when the item stands within
//! the upright tilt band; the horizontal fix applies exactly when it does
//! not (strictly between the band's edges), so at most one of the two offset
//! paths fires per invocation. The horizontal fix also normalizes placements
//! whose facing was authored on the z axis onto the y axis, and reports the
//! facing angle and offset magnitude for the host to project onto the x and
//! z position axes.

use vstd::prelude::*;

use crate::records::dAcItem;

verus! {

/// Lower edge of the tilt band: tilts strictly below it count as upright.
pub const TILT_BAND_LOW: u16 = 0x2000;

/// Upper edge of the tilt band: tilts strictly above it count as upright.
pub const TILT_BAND_HIGH: u16 = 0xE000;

/// The tilt is within the upright band: the item stands (close to)
/// vertical, and the vertical offset may be applied.
pub open spec fn upright_tilt(rot_x: u16) -> bool {
    rot_x < TILT_BAND_LOW || rot_x > TILT_BAND_HIGH
}

/// The tilt is strictly outside the upright band: the item lies sideways,
/// and the horizontal correction applies instead.
pub open spec fn sideways_tilt(rot_x: u16) -> bool {
    TILT_BAND_LOW < rot_x && rot_x < TILT_BAND_HIGH
}

/// The two correction paths never both fire on one tilt value, and both
/// stand down exactly on the band's two edges.
pub proof fn lemma_offset_paths_exclusive(rot_x: u16)
    ensures
        !(upright_tilt(rot_x) && sideways_tilt(rot_x)),
        (!upright_tilt(rot_x) && !sideways_tilt(rot_x)) <==> (rot_x == TILT_BAND_LOW || rot_x
            == TILT_BAND_HIGH),
{
}

/// Addition on 16-bit angle units: a full turn wraps.
pub open spec fn wrap_add16(x: u16, y: u16) -> u16 {
    if x + y > u16::MAX {
        (x + y - 0x10000) as u16
    } else {
        (x + y) as u16
    }
}

/// Negation on 16-bit angle units: the angle of opposite sense.
pub open spec fn wrap_neg16(y: u16) -> u16 {
    if 0 - y < 0 {
        (0 - y + 0x10000) as u16
    } else {
        (0 - y) as u16
    }
}

/// Vertical offset, in whole world units, applied to an upright item of the
/// given identity; identities outside the table receive zero.
pub open spec fn spec_y_offset(identity: u32) -> u16 {
    if identity == 10 || identity == 16 || identity == 56 || identity == 159 || identity == 180
        || (186 <= identity && identity <= 193) {
        20  // sword, harp, mitts, insect cage, stone of trials, songs
    } else if identity == 19 || identity == 98 || identity == 116 || identity == 125 {
        23  // bow, sea chart, wooden shield, hylian shield
    } else if identity == 20 || identity == 21 {
        25  // clawshots, spiral charge
    } else if identity == 25 || identity == 26 {
        30  // two boss keys
    } else if (27 <= identity && identity <= 30) || identity == 179 {
        24  // further boss keys, key piece, amber tablet
    } else if identity == 31 {
        27  // last boss key
    } else if identity == 35 || identity == 40 || identity == 41 || identity == 48 || identity
        == 53 || identity == 112 || identity == 134 || identity == 165 {
        18  // crystal packs, bombs, beetle, pouch, small bomb bag, ore
    } else if identity == 49 || identity == 71 || identity == 92 {
        26  // bellows, bug net, bomb bag
    } else if identity == 52 || identity == 68 || (100 <= identity && identity <= 104) || identity
        == 108 || identity == 114 || identity == 153 || (161 <= identity && identity <= 164) || (
    166 <= identity && identity <= 170) || (172 <= identity && identity <= 174) || identity == 178
        || identity == 198 || identity == 199 {
        16  // slingshot, scale, medals, wallets, bottle, treasures, tablet, fruit
    } else if identity == 63 || identity == 64 {
        15  // semi-rare and rare treasure
    } else if 95 <= identity && identity <= 97 {
        24  // progress pieces
    } else if identity == 128 || identity == 175 {
        14  // seed satchel, golden skull
    } else if identity == 131 || identity == 137 || identity == 177 || (207 <= identity && identity
        <= 213) {
        19  // quiver, whip, emerald tablet, dungeon maps
    } else if identity == 138 {
        6  // earrings
    } else if identity == 158 || identity == 171 {
        12  // letter, monster horn
    } else if identity == 160 {
        5  // rattle
    } else if identity == 176 {
        17  // goddess plume
    } else {
        0
    }
}

/// Whether the renderer's default-scaling toggle is set for the identity:
/// the heart container, the three progress pieces, and the rattle.
pub open spec fn spec_default_scaling(identity: u32) -> bool {
    identity == 93 || (95 <= identity && identity <= 97) || identity == 160
}

/// Horizontal correction of one identity: an offset magnitude, in whole
/// world units, projected along the facing angle, and one additive rotation
/// delta per axis, in angle units.
#[derive(Clone, Copy, Debug, PartialEq, Eq, Structural)]
pub struct HCorrection {
    pub magnitude: u16,
    pub delta_x: u16,
    pub delta_y: u16,
    pub delta_z: u16,
}

/// Horizontal correction table, total over the identity domain; identities
/// outside the table receive the all-zero (identity) correction.
pub open spec fn spec_h_correction(identity: u32) -> HCorrection {
    if identity == 2 || identity == 3 || identity == 4 || identity == 32 || identity == 33
        || identity == 34 {
        // rupees and rupoor
        HCorrection { magnitude: 20, delta_x: 0, delta_y: 0, delta_z: 0 }
    } else if identity == 10 {
        // progressive sword
        HCorrection { magnitude: 7, delta_x: 0xD900, delta_y: 0xF400, delta_z: 0xF600 }
    } else if identity == 16 || (186 <= identity && identity <= 193) {
        // goddess's harp and songs
        HCorrection { magnitude: 17, delta_x: 0x0800, delta_y: 0x2500, delta_z: 0x0800 }
    } else if identity == 19 {
        // progressive bow
        HCorrection { magnitude: 17, delta_x: 0, delta_y: 0, delta_z: 0 }
    } else if identity == 20 {
        // clawshots
        HCorrection { magnitude: 25, delta_x: 0x0500, delta_y: 0x2400, delta_z: 0 }
    } else if identity == 21 {
        // spiral charge
        HCorrection { magnitude: 27, delta_x: 0, delta_y: 0x3000, delta_z: 0x0300 }
    } else if identity == 25 {
        // first boss key
        HCorrection { magnitude: 50, delta_x: 0xEF00, delta_y: 0, delta_z: 0 }
    } else if identity == 26 || identity == 29 {
        // two boss keys
        HCorrection { magnitude: 40, delta_x: 0, delta_y: 0, delta_z: 0 }
    } else if identity == 27 {
        // another boss key
        HCorrection { magnitude: 47, delta_x: 0, delta_y: 0, delta_z: 0 }
    } else if identity == 28 {
        // key piece
        HCorrection { magnitude: 10, delta_x: 0x0800, delta_y: 0x2000, delta_z: 0x0800 }
    } else if identity == 30 {
        // another boss key
        HCorrection { magnitude: 60, delta_x: 0, delta_y: 0, delta_z: 0 }
    } else if identity == 31 || identity == 128 || identity == 137 {
        // last boss key, small seed satchel, whip
        HCorrection { magnitude: 25, delta_x: 0, delta_y: 0, delta_z: 0 }
    } else if identity == 35 || identity == 48 {
        // crystal pack and single crystal
        HCorrection { magnitude: 28, delta_x: 0, delta_y: 0, delta_z: 0 }
    } else if identity == 40 || identity == 41 {
        // bomb refills
        HCorrection { magnitude: 20, delta_x: 0, delta_y: 0x1600, delta_z: 0 }
    } else if identity == 49 {
        // gust bellows
        HCorrection { magnitude: 35, delta_x: 0x1100, delta_y: 0, delta_z: 0x2000 }
    } else if identity == 52 {
        // progressive slingshot
        HCorrection { magnitude: 30, delta_x: 0x1000, delta_y: 0, delta_z: 0x1000 }
    } else if identity == 53 {
        // progressive beetle
        HCorrection { magnitude: 40, delta_x: 0xE000, delta_y: 0xCB00, delta_z: 0xB000 }
    } else if identity == 56 {
        // progressive mitts
        HCorrection { magnitude: 45, delta_x: 0, delta_y: 0xE800, delta_z: 0 }
    } else if identity == 68 || identity == 98 {
        // water dragon scale, sea chart
        HCorrection { magnitude: 15, delta_x: 0, delta_y: 0, delta_z: 0 }
    } else if identity == 70 || identity == 114 {
        // bug medal, life medal
        HCorrection { magnitude: 15, delta_x: 0x0A80, delta_y: 0, delta_z: 0 }
    } else if identity == 71 {
        // progressive bug net
        HCorrection { magnitude: 30, delta_x: 0x1000, delta_y: 0xE800, delta_z: 0x2000 }
    } else if identity == 92 {
        // bomb bag
        HCorrection { magnitude: 45, delta_x: 0, delta_y: 0, delta_z: 0 }
    } else if identity == 93 || identity == 112 || identity == 198 {
        // heart container, progressive pouch, life tree fruit
        HCorrection { magnitude: 35, delta_x: 0, delta_y: 0, delta_z: 0 }
    } else if identity == 94 {
        // heart piece
        HCorrection { magnitude: 40, delta_x: 0, delta_y: 0, delta_z: 0 }
    } else if 95 <= identity && identity <= 97 {
        // progress pieces
        HCorrection { magnitude: 75, delta_x: 0, delta_y: 0, delta_z: 0 }
    } else if 100 <= identity && identity <= 104 {
        // medals
        HCorrection { magnitude: 15, delta_x: 0, delta_y: 0x4000, delta_z: 0x0A00 }
    } else if identity == 108 || identity == 153 || identity == 163 || identity == 199 {
        // progressive wallet, bottle, tumbleweed, extra wallet
        HCorrection { magnitude: 20, delta_x: 0, delta_y: 0, delta_z: 0 }
    } else if identity == 116 || identity == 125 {
        // wooden and hylian shield
        HCorrection { magnitude: 25, delta_x: 0x0800, delta_y: 0x2400, delta_z: 0x1000 }
    } else if identity == 131 {
        // small quiver
        HCorrection { magnitude: 25, delta_x: 0x1000, delta_y: 0, delta_z: 0x1000 }
    } else if identity == 134 {
        // small bomb bag
        HCorrection { magnitude: 30, delta_x: 0, delta_y: 0, delta_z: 0 }
    } else if identity == 138 {
        // fireshield earrings
        HCorrection { magnitude: 20, delta_x: 0, delta_y: 0, delta_z: 0 }
    } else if identity == 158 {
        // letter
        HCorrection { magnitude: 15, delta_x: 0, delta_y: 0x2000, delta_z: 0 }
    } else if identity == 159 {
        // insect cage
        HCorrection { magnitude: 40, delta_x: 0, delta_y: 0x2000, delta_z: 0 }
    } else if identity == 160 {
        // rattle
        HCorrection { magnitude: 25, delta_x: 0, delta_y: 0xE000, delta_z: 0 }
    } else if identity == 63 || identity == 64 || (165 <= identity && identity <= 176) {
        // treasures
        HCorrection { magnitude: 25, delta_x: 0, delta_y: 0, delta_z: 0 }
    } else if 177 <= identity && identity <= 179 {
        // tablets
        HCorrection { magnitude: 10, delta_x: 0x0800, delta_y: 0x2000, delta_z: 0x0800 }
    } else if identity == 180 {
        // stone of trials
        HCorrection { magnitude: 20, delta_x: 0x0800, delta_y: 0x2000, delta_z: 0x0800 }
    } else if 200 <= identity && identity <= 206 {
        // small keys
        HCorrection { magnitude: 5, delta_x: 0x0C00, delta_y: 0x1000, delta_z: 0x0600 }
    } else if 207 <= identity && identity <= 213 {
        // dungeon maps
        HCorrection { magnitude: 30, delta_x: 0x0800, delta_y: 0x1000, delta_z: 0x0800 }
    } else {
        HCorrection { magnitude: 0, delta_x: 0, delta_y: 0, delta_z: 0 }
    }
}

/// Looks up the horizontal correction of an identity.
pub fn horizontal_correction_for(identity: u32) -> (c: HCorrection)
    ensures
        c == spec_h_correction(identity),
{
    let mut magnitude: u16 = 0;
    let mut delta_x: u16 = 0;
    let mut delta_y: u16 = 0;
    let mut delta_z: u16 = 0;

    match identity {
        2 | 3 | 4 | 32 | 33 | 34 => magnitude = 20,
        10 => {
            magnitude = 7;
            delta_x = 0xD900;
            delta_y = 0xF400;
            delta_z = 0xF600;
        },
        16 | 186..=193 => {
            magnitude = 17;
            delta_x = 0x0800;
            delta_y = 0x2500;
            delta_z = 0x0800;
        },
        19 => magnitude = 17,
        20 => {
            magnitude = 25;
            delta_x = 0x0500;
            delta_y = 0x2400;
        },
        21 => {
            magnitude = 27;
            delta_y = 0x3000;
            delta_z = 0x0300;
        },
        25 => {
            magnitude = 50;
            delta_x = 0xEF00;
        },
        26 | 29 => magnitude = 40,
        27 => magnitude = 47,
        28 => {
            magnitude = 10;
            delta_x = 0x0800;
            delta_y = 0x2000;
            delta_z = 0x0800;
        },
        30 => magnitude = 60,
        31 | 128 | 137 => magnitude = 25,
        35 | 48 => magnitude = 28,
        40 | 41 => {
            magnitude = 20;
            delta_y = 0x1600;
        },
        49 => {
            magnitude = 35;
            delta_x = 0x1100;
            delta_z = 0x2000;
        },
        52 => {
            magnitude = 30;
            delta_x = 0x1000;
            delta_z = 0x1000;
        },
        53 => {
            magnitude = 40;
            delta_x = 0xE000;
            delta_y = 0xCB00;
            delta_z = 0xB000;
        },
        56 => {
            magnitude = 45;
            delta_y = 0xE800;
        },
        68 | 98 => magnitude = 15,
        70 | 114 => {
            magnitude = 15;
            delta_x = 0x0A80;
        },
        71 => {
            magnitude = 30;
            delta_x = 0x1000;
            delta_y = 0xE800;
            delta_z = 0x2000;
        },
        92 => magnitude = 45,
        93 | 112 | 198 => magnitude = 35,
        94 => magnitude = 40,
        95 | 96 | 97 => magnitude = 75,
        100..=104 => {
            magnitude = 15;
            delta_y = 0x4000;
            delta_z = 0x0A00;
        },
        108 | 153 | 163 | 199 => magnitude = 20,
        116 | 125 => {
            magnitude = 25;
            delta_x = 0x0800;
            delta_y = 0x2400;
            delta_z = 0x1000;
        },
        131 => {
            magnitude = 25;
            delta_x = 0x1000;
            delta_z = 0x1000;
        },
        134 => magnitude = 30,
        138 => magnitude = 20,
        158 => {
            magnitude = 15;
            delta_y = 0x2000;
        },
        159 => {
            magnitude = 40;
            delta_y = 0x2000;
        },
        160 => {
            magnitude = 25;
            delta_y = 0xE000;
        },
        63 | 64 | 165..=176 => magnitude = 25,
        177..=179 => {
            magnitude = 10;
            delta_x = 0x0800;
            delta_y = 0x2000;
            delta_z = 0x0800;
        },
        180 => {
            magnitude = 20;
            delta_x = 0x0800;
            delta_y = 0x2000;
            delta_z = 0x0800;
        },
        200..=206 => {
            magnitude = 5;
            delta_x = 0x0C00;
            delta_y = 0x1000;
            delta_z = 0x0600;
        },
        207..=213 => {
            magnitude = 30;
            delta_x = 0x0800;
            delta_y = 0x1000;
            delta_z = 0x0800;
        },
        _ => magnitude = 0,
    }

    HCorrection { magnitude, delta_x, delta_y, delta_z }
}

/// Looks up the vertical correction of an identity: the offset and the
/// default-scaling toggle.
pub fn vertical_correction_for(identity: u32) -> (r: (u16, bool))
    ensures
        r.0 == spec_y_offset(identity),
        r.1 == spec_default_scaling(identity),
{
    let mut use_default_scaling = false;
    let mut y_offset: u16 = 0;

    match identity {
        10 | 16 | 56 | 159 | 180 | 186..=193 => y_offset = 20,
        19 | 98 | 116 | 125 => y_offset = 23,
        20 | 21 => y_offset = 25,
        25 | 26 => y_offset = 30,
        27..=30 | 179 => y_offset = 24,
        31 => y_offset = 27,
        35 | 40 | 41 | 48 | 53 | 112 | 134 | 165 => y_offset = 18,
        49 | 71 | 92 => y_offset = 26,
        52 | 68 | 100..=104 | 108 | 114 | 153 | 161..=164 | 166..=170 | 172..=174 | 178 | 198
            | 199 => y_offset = 16,
        63 | 64 => y_offset = 15,
        93 => use_default_scaling = true,
        95..=97 => {
            y_offset = 24;
            use_default_scaling = true;
        },
        128 | 175 => y_offset = 14,
        131 | 137 | 177 | 207..=213 => y_offset = 19,
        138 => y_offset = 6,
        158 | 171 => y_offset = 12,
        160 => {
            y_offset = 5;
            use_default_scaling = true;
        },
        176 => y_offset = 17,
        _ => y_offset = 0,
    }

    (y_offset, use_default_scaling)
}

/// A collectible record after the vertical fix. The fix stands down
/// entirely while the custom-vertical bit of `param1` is set. Otherwise the
/// stored vertical offset is replaced by the identity's table value only
/// within the upright tilt band, and bit 0 of the y rotation is set or
/// cleared to the identity's default-scaling toggle regardless of tilt.
pub open spec fn y_fixed(r: dAcItem) -> dAcItem {
    if (r.param1 >> 9) & 1 == 0 {
        let identity = r.param1 & 0x1FF;
        dAcItem {
            freestanding_y_offset: if upright_tilt(r.rot_x) {
                spec_y_offset(identity)
            } else {
                r.freestanding_y_offset
            },
            rot_y: if spec_default_scaling(identity) {
                r.rot_y | 1
            } else {
                r.rot_y & 0xFFFE
            },
            ..r
        }
    } else {
        r
    }
}

/// Facing angle used to project the horizontal offset: the y rotation, or,
/// where that is exactly zero, the negated z rotation (a placement authored
/// on the z axis).
pub open spec fn spec_facing(r: dAcItem) -> u16 {
    if r.rot_y != 0 {
        r.rot_y
    } else {
        wrap_neg16(r.rot_z)
    }
}

/// A collectible record after the horizontal fix. Outside the sideways band
/// the record is untouched. Within it, a z-authored facing is first moved
/// onto the y axis (y takes the derived facing, z is cleared); then the x
/// rotation is reset to exactly the identity's x delta, discarding the prior
/// tilt, and the y and z deltas are added to the (possibly normalized) y and
/// z rotations.
pub open spec fn h_fixed(r: dAcItem) -> dAcItem {
    if sideways_tilt(r.rot_x) {
        let c = spec_h_correction(r.param1 & 0x1FF);
        dAcItem {
            rot_x: c.delta_x,
            rot_y: wrap_add16(spec_facing(r), c.delta_y),
            rot_z: if r.rot_y == 0 {
                c.delta_z
            } else {
                wrap_add16(r.rot_z, c.delta_z)
            },
            ..r
        }
    } else {
        r
    }
}

/// Horizontal displacement ordered by the horizontal fix: the host projects
/// it as sin(facing) * magnitude onto x and cos(facing) * magnitude onto z.
#[derive(Clone, Copy, Debug, PartialEq, Eq, Structural)]
pub struct HorizontalMove {
    /// Facing angle, in angle units, after normalization.
    pub facing: u16,
    /// Offset magnitude, whole world units.
    pub magnitude: u16,
}

/// Displacement ordered by the horizontal fix, if it fires.
pub open spec fn h_move(r: dAcItem) -> Option<HorizontalMove> {
    if sideways_tilt(r.rot_x) {
        Some(
            HorizontalMove {
                facing: spec_facing(r),
                magnitude: spec_h_correction(r.param1 & 0x1FF).magnitude,
            },
        )
    } else {
        None
    }
}

/// Applies the vertical fix to a record.
pub fn fix_freestanding_item_y_offset(record: &mut dAcItem)
    ensures
        *final(record) == y_fixed(*old(record)),
{
    let actor_param1 = record.param1;

    if (actor_param1 >> 9) & 1 == 0 {
        let identity = actor_param1 & 0x1FF;
        let (y_offset, use_default_scaling) = vertical_correction_for(identity);

        // only apply the offset if the item is not tilted
        if record.rot_x < TILT_BAND_LOW || record.rot_x > TILT_BAND_HIGH {
            record.freestanding_y_offset = y_offset;
        }

        if use_default_scaling {
            record.rot_y = record.rot_y | 1;
        } else {
            record.rot_y = record.rot_y & 0xFFFE;
        }
    }
}

/// Applies the horizontal fix to a record, and reports the displacement for
/// the host to project onto the position.
pub fn fix_freestanding_item_horizontal_offset(record: &mut dAcItem) -> (mv: Option<HorizontalMove>)
    ensures
        *final(record) == h_fixed(*old(record)),
        mv == h_move(*old(record)),
{
    if record.rot_x > TILT_BAND_LOW && record.rot_x < TILT_BAND_HIGH {
        let identity = record.param1 & 0x1FF;
        let c = horizontal_correction_for(identity);

        // items are assumed tilted on x and turned on y; a placement turned
        // on z instead is normalized onto y first
        let mut facing_angle = record.rot_y;
        if facing_angle == 0 {
            facing_angle = 0u16.wrapping_sub(record.rot_z);
            record.rot_y = facing_angle;
            record.rot_z = 0;
        }

        record.rot_x = c.delta_x;
        record.rot_y = record.rot_y.wrapping_add(c.delta_y);
        record.rot_z = record.rot_z.wrapping_add(c.delta_z);

        Some(HorizontalMove { facing: facing_angle, magnitude: c.magnitude })
    } else {
        None
    }
}

} // verus!
