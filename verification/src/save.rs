//! Persistent best scores, one per game mode.

use vstd::prelude::*;
use crate::state::GameMode;

verus! {

/// Best score ever reached in each mode.
#[derive(Clone, Copy, Debug, PartialEq, Eq, Structural)]
pub struct HighScores {
    pub classic: u32,
    pub zen: u32,
    pub survival: u32,
    pub timed: u32,
}

/// The stored best score of `mode` in `hs`.
pub open spec fn best_for(hs: HighScores, mode: GameMode) -> u32 {
    match mode {
        GameMode::Classic => hs.classic,
        GameMode::Zen => hs.zen,
        GameMode::Survival => hs.survival,
        GameMode::Timed => hs.timed,
    }
}

/// Highest score over all modes.
pub open spec fn best_overall(hs: HighScores) -> u32 {
    let a = if hs.classic >= hs.zen { hs.classic } else { hs.zen };
    let b = if hs.survival >= hs.timed { hs.survival } else { hs.timed };
    if a >= b { a } else { b }
}

/// `hs` after offering `score` for `mode`: the slot keeps the larger value.
pub open spec fn recorded(hs: HighScores, mode: GameMode, score: u32) -> HighScores {
    if score > best_for(hs, mode) {
        match mode {
            GameMode::Classic => HighScores { classic: score, ..hs },
            GameMode::Zen => HighScores { zen: score, ..hs },
            GameMode::Survival => HighScores { survival: score, ..hs },
            GameMode::Timed => HighScores { timed: score, ..hs },
        }
    } else {
        hs
    }
}

impl Default for HighScores {
    fn default() -> (h: Self)
        ensures
            forall|m: GameMode| best_for(h, m) == 0,
    {
        HighScores { classic: 0, zen: 0, survival: 0, timed: 0 }
    }
}

impl HighScores {
    /// Best score of `mode`.
    pub fn get(&self, mode: GameMode) -> (s: u32)
        ensures
            s == best_for(*self, mode),
    {
        match mode {
            GameMode::Classic => self.classic,
            GameMode::Zen => self.zen,
            GameMode::Survival => self.survival,
            GameMode::Timed => self.timed,
        }
    }

    /// Records `score` for `mode` when it beats the stored best; tells
    /// whether it did. Other modes are never touched.
    pub fn set_if_better(&mut self, mode: GameMode, score: u32) -> (improved: bool)
        ensures
            improved == (score > best_for(*old(self), mode)),
            *final(self) == recorded(*old(self), mode, score),
            best_for(*final(self), mode) == (if improved { score } else { best_for(*old(self), mode) }),
            forall|m: GameMode| m != mode ==> best_for(*final(self), m) == best_for(*old(self), m),
    {
        let slot: u32 = self.get(mode);
        if score > slot {
            match mode {
                GameMode::Classic => self.classic = score,
                GameMode::Zen => self.zen = score,
                GameMode::Survival => self.survival = score,
                GameMode::Timed => self.timed = score,
            }
            true
        } else {
            false
        }
    }

    /// Best score over all modes (shown on the title screen).
    pub fn best(&self) -> (b: u32)
        ensures
            b == best_overall(*self),
            forall|m: GameMode| best_for(*self, m) <= b,
            exists|m: GameMode| best_for(*self, m) == b,
    {
        let zs = if self.survival >= self.timed { self.survival } else { self.timed };
        let z = if self.zen >= zs { self.zen } else { zs };
        let b = if self.classic >= z { self.classic } else { z };
        assert(best_for(*self, GameMode::Classic) == self.classic);
        assert(best_for(*self, GameMode::Zen) == self.zen);
        assert(best_for(*self, GameMode::Survival) == self.survival);
        assert(best_for(*self, GameMode::Timed) == self.timed);
        b
    }
}

/// Offering a score keeps the larger of the old best and the score in that
/// mode's slot and leaves every other mode alone.
pub proof fn law_recorded_is_max(hs: HighScores, mode: GameMode, score: u32, other: GameMode)
    ensures
        best_for(recorded(hs, mode, score), mode) == (if score > best_for(hs, mode) { score } else { best_for(hs, mode) }),
        other != mode ==> best_for(recorded(hs, mode, score), other) == best_for(hs, other),
{
}

/// High scores never go down.
pub proof fn law_high_scores_never_drop(hs: HighScores, mode: GameMode, score: u32, m: GameMode)
    ensures
        best_for(recorded(hs, mode, score), m) >= best_for(hs, m),
{
}

/// Offering the same score twice changes nothing the second time, and the
/// second offer does not count as a new record.
pub proof fn law_recorded_idempotent(hs: HighScores, mode: GameMode, score: u32)
    ensures
        recorded(recorded(hs, mode, score), mode, score) == recorded(hs, mode, score),
        !(score > best_for(recorded(hs, mode, score), mode)),
{
}

/// Offers for different modes do not interfere: their order does not matter.
pub proof fn law_recorded_commutes(hs: HighScores, m1: GameMode, s1: u32, m2: GameMode, s2: u32)
    requires
        m1 != m2,
    ensures
        recorded(recorded(hs, m1, s1), m2, s2) == recorded(recorded(hs, m2, s2), m1, s1),
{
}

/// After a score is offered, the overall best on the title screen is at
/// least that score.
pub proof fn law_best_covers_recorded(hs: HighScores, mode: GameMode, score: u32)
    ensures
        best_overall(recorded(hs, mode, score)) >= score,
        best_overall(recorded(hs, mode, score)) >= best_overall(hs),
{
}

/// Everything the game persists between sessions.
#[derive(Clone, Copy, Debug, PartialEq, Eq, Structural)]
pub struct SaveData {
    pub high_scores: HighScores,
    /// Handheld play puts the stick on the right and dash on the left.
    pub swap_touch_controls: bool,
}

impl Default for SaveData {
    fn default() -> (d: Self)
        ensures
            forall|m: GameMode| best_for(d.high_scores, m) == 0,
            !d.swap_touch_controls,
    {
        SaveData { high_scores: HighScores::default(), swap_touch_controls: false }
    }
}

impl SaveData {
    /// Flip the stick / dash sides (main-menu toggle on handhelds).
    pub fn toggle_swap_controls(&mut self)
        ensures
            final(self).swap_touch_controls == !old(self).swap_touch_controls,
            final(self).high_scores == old(self).high_scores,
    {
        self.swap_touch_controls = !self.swap_touch_controls;
    }
}

} // verus!
