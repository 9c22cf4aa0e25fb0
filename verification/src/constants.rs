//! Fixed game settings that are whole numbers or names.

use vstd::prelude::*;

verus! {

/// Hearts shown on the HUD (and the classic / timed starting lives).
pub const MAX_LIVES: u32 = 3;

/// Initial window size in logical pixels.
pub const WINDOW_W: u32 = 1920;
pub const WINDOW_H: u32 = 1080;

/// File (native) or local-storage key (web) of the save data.
pub const SAVE_PATH: &'static str = "save_data.json";

} // verus!
