//! Spawn and population rules of the playfield.

use vstd::prelude::*;
use crate::state::GameMode;

verus! {

/// Kinds of power-up.
#[derive(Clone, Copy, Debug, PartialEq, Eq, Structural)]
pub enum PowerupKind {
    Magnet,
    Shield,
    Speed,
}

impl PowerupKind {
    /// Sides of the polygon that draws the power-up.
    pub fn sides(self) -> (n: u32)
        ensures
            n == (match self {
                PowerupKind::Magnet => 6u32,
                PowerupKind::Shield => 8u32,
                PowerupKind::Speed => 4u32,
            }),
    {
        match self {
            PowerupKind::Magnet => 6,
            PowerupKind::Shield => 8,
            PowerupKind::Speed => 4,
        }
    }

    /// Kind for a uniform roll in `0..3` (0 magnet, 1 shield, anything
    /// else speed).
    pub fn from_roll(roll: i32) -> (k: PowerupKind)
        ensures
            roll == 0 ==> k == PowerupKind::Magnet,
            roll == 1 ==> k == PowerupKind::Shield,
            roll != 0 && roll != 1 ==> k == PowerupKind::Speed,
    {
        match roll {
            0 => PowerupKind::Magnet,
            1 => PowerupKind::Shield,
            _ => PowerupKind::Speed,
        }
    }
}

/// Edge of the play rectangle a hazard enters from.
#[derive(Clone, Copy, Debug, PartialEq, Eq, Structural)]
pub enum HazardSide {
    Left,
    Right,
    Bottom,
    Top,
}

/// Entry edge for a uniform roll in `0..4` (anything else: top).
pub fn hazard_side_from_roll(roll: i32) -> (s: HazardSide)
    ensures
        roll == 0 ==> s == HazardSide::Left,
        roll == 1 ==> s == HazardSide::Right,
        roll == 2 ==> s == HazardSide::Bottom,
        roll != 0 && roll != 1 && roll != 2 ==> s == HazardSide::Top,
{
    match roll {
        0 => HazardSide::Left,
        1 => HazardSide::Right,
        2 => HazardSide::Bottom,
        _ => HazardSide::Top,
    }
}

/// Stars placed when a run starts: 6 in Zen, 4 otherwise.
pub fn starter_star_count(mode: GameMode) -> (n: u32)
    ensures
        n == (if mode == GameMode::Zen { 6u32 } else { 4u32 }),
{
    if mode == GameMode::Zen { 6 } else { 4 }
}

/// Most stars on the field at once: 14 in Zen; otherwise 6 plus the whole
/// part of twice the run intensity (`intensity_x2`), at most 14.
pub fn star_cap(mode: GameMode, intensity_x2: usize) -> (cap: usize)
    requires
        intensity_x2 <= usize::MAX - 6,
    ensures
        cap == (if mode == GameMode::Zen {
            14
        } else if 6 + intensity_x2 <= 14 {
            6 + intensity_x2
        } else {
            14
        }),
{
    if mode == GameMode::Zen {
        14
    } else {
        let c = 6 + intensity_x2;
        if c <= 14 { c } else { 14 }
    }
}

/// Most hazards at once: 4 plus twice the whole part of the run intensity
/// (`intensity_whole`), at most 16.
pub fn hazard_cap(intensity_whole: usize) -> (cap: usize)
    requires
        4 + 2 * intensity_whole <= usize::MAX,
    ensures
        cap == (if 4 + 2 * intensity_whole <= 16 { 4 + 2 * intensity_whole } else { 16 }),
{
    let c = 4 + intensity_whole * 2;
    if c <= 16 { c } else { 16 }
}

} // verus!
