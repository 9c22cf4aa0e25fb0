//! Menu screen decisions: which screen follows which input, how the mode
//! and difficulty pickers move, and what the mode list shows.

use vstd::prelude::*;
use crate::state::{Difficulty, GameMode, GameState, mode_index, difficulty_index, mode_at};
use crate::save::{HighScores, best_for};

verus! {

/// Menu input of one frame, keyboard and touch merged.
#[derive(Clone, Copy, Debug, PartialEq, Eq, Structural)]
pub struct MenuKeys {
    /// Enter / Space / tap-to-confirm.
    pub confirm: bool,
    /// Escape / Backspace / back gesture.
    pub back: bool,
    /// Previous mode.
    pub up: bool,
    /// Next mode.
    pub down: bool,
    /// Easier difficulty.
    pub left: bool,
    /// Harder difficulty.
    pub right: bool,
}

/// Title screen: confirm opens mode select; back quits (where quitting is
/// possible).
#[derive(Clone, Copy, Debug, PartialEq, Eq, Structural)]
pub struct MenuDecision {
    pub next_state: Option<GameState>,
    pub quit: bool,
}

pub fn menu_input(keys: MenuKeys) -> (d: MenuDecision)
    ensures
        d.next_state == (if keys.confirm { Some(GameState::ModeSelect) } else { None::<GameState> }),
        d.quit == keys.back,
{
    MenuDecision {
        next_state: if keys.confirm { Some(GameState::ModeSelect) } else { None },
        quit: keys.back,
    }
}

/// Mode-select screen outcome.
#[derive(Clone, Copy, Debug, PartialEq, Eq, Structural)]
pub struct ModeSelectDecision {
    pub mode: GameMode,
    pub difficulty: Difficulty,
    /// The list must be redrawn.
    pub changed: bool,
    pub next_state: Option<GameState>,
}

/// Mode select: up / down cycle the mode, left / right the difficulty
/// (both wrap around), applied in that order; confirm starts the run and
/// back returns to the title (back wins when both are pressed).
pub fn mode_select_input(keys: MenuKeys, mode: GameMode, difficulty: Difficulty) -> (d: ModeSelectDecision)
    ensures
        mode_index(d.mode) == (mode_index(mode) + (if keys.up { 3int } else { 0 }) + (if keys.down { 1int } else { 0 })) % 4,
        difficulty_index(d.difficulty) == (difficulty_index(difficulty) + (if keys.left { 3int } else { 0 })
            + (if keys.right { 1int } else { 0 })) % 4,
        d.changed == (keys.up || keys.down || keys.left || keys.right),
        d.next_state == (if keys.back {
            Some(GameState::Menu)
        } else if keys.confirm {
            Some(GameState::Playing)
        } else {
            None::<GameState>
        }),
{
    let mut m = mode;
    let mut diff = difficulty;
    let mut changed = false;
    if keys.up {
        m = m.prev();
        changed = true;
    }
    if keys.down {
        m = m.next();
        changed = true;
    }
    if keys.left {
        diff = diff.easier();
        changed = true;
    }
    if keys.right {
        diff = diff.harder();
        changed = true;
    }
    let mut next = None;
    if keys.confirm {
        next = Some(GameState::Playing);
    }
    if keys.back {
        next = Some(GameState::Menu);
    }
    ModeSelectDecision { mode: m, difficulty: diff, changed, next_state: next }
}

/// Game over: confirm plays again, back returns to the title (back wins).
pub fn game_over_input(keys: MenuKeys) -> (next: Option<GameState>)
    ensures
        next == (if keys.back {
            Some(GameState::Menu)
        } else if keys.confirm {
            Some(GameState::Playing)
        } else {
            None::<GameState>
        }),
{
    if keys.back {
        Some(GameState::Menu)
    } else if keys.confirm {
        Some(GameState::Playing)
    } else {
        None
    }
}

/// During play, back returns to the title.
pub fn playing_escape(keys: MenuKeys) -> (next: Option<GameState>)
    ensures
        next == (if keys.back { Some(GameState::Menu) } else { None::<GameState> }),
{
    if keys.back { Some(GameState::Menu) } else { None }
}

/// One line of the mode list: mode, whether it is the highlighted one, and
/// its best score.
#[derive(Clone, Copy, Debug, PartialEq, Eq, Structural)]
pub struct ModeRow {
    pub mode: GameMode,
    pub selected: bool,
    pub best: u32,
}

/// The mode list of the mode-select screen, in menu order.
pub fn mode_list_rows(scores: &HighScores, selected: GameMode) -> (rows: Vec<ModeRow>)
    ensures
        rows@.len() == 4,
        forall|i: int| 0 <= i < 4 ==> {
            &&& rows@[i].mode == mode_at(i)
            &&& rows@[i].selected == (mode_at(i) == selected)
            &&& rows@[i].best == best_for(*scores, mode_at(i))
        },
{
    let mut rows: Vec<ModeRow> = Vec::new();
    let mut i: usize = 0;
    while i < 4
        invariant
            i <= 4,
            rows@.len() == i,
            forall|k: int| 0 <= k < i ==> {
                &&& rows@[k].mode == mode_at(k)
                &&& rows@[k].selected == (mode_at(k) == selected)
                &&& rows@[k].best == best_for(*scores, mode_at(k))
            },
        decreases 4 - i,
    {
        let m = GameMode::from_index(i);
        rows.push(ModeRow { mode: m, selected: m == selected, best: scores.get(m) });
        i = i + 1;
    }
    rows
}

} // verus!
