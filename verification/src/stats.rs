//! Per-run statistics: score, hearts, combo, levels, and how they change
//! when the player collects stars and power-ups or runs into hazards.

use vstd::prelude::*;
use crate::state::{Difficulty, GameMode, score_mult_hundredths};
use crate::save::{HighScores, best_for, recorded};

verus! {

/// Levels above 1 that `level` has climbed (0 for levels 0 and 1).
pub open spec fn levels_climbed(level: int) -> int {
    if level >= 1 { level - 1 } else { 0 }
}

/// Score that ends `level`: 15 at level 1, then 20 more per level plus a
/// quadratic ramp of 3 per level squared.
pub open spec fn level_target(level: int) -> int {
    15 + 20 * levels_climbed(level) + 3 * levels_climbed(level) * levels_climbed(level)
}

/// Combo tier shown by pop-ups and used for points: one tier per 3 chained
/// stars, capped at 10.
pub open spec fn combo_tier_of(combo: int) -> int {
    if 1 + combo / 3 <= 10 { 1 + combo / 3 } else { 10 }
}

/// Points for a star at `combo` under `difficulty`: the combo tier scaled by
/// the score multiplier, rounded half up, and never below 1.
pub open spec fn points_for(combo: int, difficulty: Difficulty) -> int {
    let scaled = (combo_tier_of(combo) * score_mult_hundredths(difficulty) + 50) / 100;
    if scaled >= 1 { scaled } else { 1 }
}

/// Hearts a run starts with.
pub open spec fn starting_lives(mode: GameMode) -> int {
    match mode {
        GameMode::Classic => 3,
        GameMode::Zen => 99,
        GameMode::Survival => 1,
        GameMode::Timed => 3,
    }
}

/// Score threshold for leaving `level` (classic / survival level-ups).
pub fn next_level_target(level: u32) -> (t: u32)
    requires
        level_target(level as int) <= u32::MAX,
    ensures
        t == level_target(level as int),
{
    let l: u32 = level.saturating_sub(1);
    assert(l == levels_climbed(level as int));
    proof {
        let li = l as int;
        assert(3 * li * li == li * li * 3 && li * li >= 0 && li * li <= li * li * 3)
            by (nonlinear_arith);
    }
    15 + l * 20 + l * l * 3
}

/// Combo tier for `combo` chained stars.
pub fn combo_tier(combo: u32) -> (t: u32)
    ensures
        t == combo_tier_of(combo as int),
        1 <= t <= 10,
{
    let t = 1 + combo / 3;
    if t <= 10 { t } else { 10 }
}

/// What a hazard contact did to the run.
#[derive(Clone, Copy, Debug, PartialEq, Eq, Structural)]
pub enum HitOutcome {
    /// Zen runs have no hazards: nothing happens.
    Ignored,
    /// An active shield absorbed the hit (the caller drops the shield).
    Shielded,
    /// A heart was lost; `fatal` when none are left.
    Hurt { fatal: bool },
}

/// Statistics of the current run.
#[derive(Clone, Copy, Debug, PartialEq, Eq, Structural)]
pub struct GameStats {
    pub score: u32,
    pub lives: u32,
    pub combo: u32,
    pub best_combo: u32,
    pub stars_collected: u32,
    pub level: u32,
    pub level_target: u32,
    pub mode: GameMode,
    pub chosen_difficulty: Difficulty,
    pub is_new_record: bool,
}

impl Default for GameStats {
    fn default() -> (s: Self)
        ensures
            s.score == 0 && s.lives == 0 && s.combo == 0 && s.best_combo == 0,
            s.stars_collected == 0 && s.level == 0 && s.level_target == 0,
            s.mode == GameMode::Classic && s.chosen_difficulty == Difficulty::Normal,
            !s.is_new_record,
    {
        GameStats {
            score: 0,
            lives: 0,
            combo: 0,
            best_combo: 0,
            stars_collected: 0,
            level: 0,
            level_target: 0,
            mode: GameMode::Classic,
            chosen_difficulty: Difficulty::Normal,
            is_new_record: false,
        }
    }
}

impl GameStats {
    /// A run in progress: the best combo covers the current combo, levels
    /// start at 1 and the level threshold is the one for the current level.
    pub open spec fn wf(self) -> bool {
        &&& self.best_combo >= self.combo
        &&& self.level >= 1
        &&& self.level_target == level_target(self.level as int)
    }

    /// Fresh statistics for a new run.
    pub fn for_mode(mode: GameMode, chosen: Difficulty) -> (s: Self)
        ensures
            s.lives == starting_lives(mode),
            s.level == 1,
            s.level_target == 15,
            s.mode == mode,
            s.chosen_difficulty == chosen,
            s.score == 0 && s.combo == 0 && s.best_combo == 0 && s.stars_collected == 0,
            !s.is_new_record,
            s.wf(),
    {
        let lives: u32 = match mode {
            GameMode::Classic => 3,
            GameMode::Zen => 99,
            GameMode::Survival => 1,
            GameMode::Timed => 3,
        };
        GameStats {
            score: 0,
            lives,
            combo: 0,
            best_combo: 0,
            stars_collected: 0,
            level: 1,
            level_target: 15,
            mode,
            chosen_difficulty: chosen,
            is_new_record: false,
        }
    }

    /// Points the next collected star is worth at the current combo.
    pub fn points_for_collect(&self) -> (p: u32)
        ensures
            p == points_for(self.combo as int, self.chosen_difficulty),
            1 <= p <= 25,
    {
        let base = combo_tier(self.combo);
        let mult = self.chosen_difficulty.score_mult();
        let scaled = (base * mult + 50) / 100;
        if scaled >= 1 { scaled } else { 1 }
    }

    /// Game speed multiplier of the chosen difficulty, in hundredths.
    pub fn speed_mult(&self) -> (m: u32)
        ensures
            m == crate::state::speed_mult_hundredths(self.chosen_difficulty),
    {
        self.chosen_difficulty.speed_mult()
    }

    /// Does the score earned by the next star at `combo` reach the level
    /// threshold in a levelled mode?
    pub open spec fn star_levels_up(self) -> bool {
        &&& self.mode.has_levels_spec()
        &&& self.score + points_for(self.combo + 1, self.chosen_difficulty) >= self.level_target
    }

    /// A star was picked up: the combo grows, the star counts, its points
    /// (at the new combo) are added, and in levelled modes reaching the
    /// threshold climbs one level. Returns the new level on a level-up.
    pub fn collect_star(&mut self) -> (level_up: Option<u32>)
        requires
            old(self).combo < u32::MAX,
            old(self).stars_collected < u32::MAX,
            old(self).score + points_for(old(self).combo + 1, old(self).chosen_difficulty) <= u32::MAX,
            old(self).star_levels_up() ==> level_target(old(self).level + 1) <= u32::MAX,
        ensures
            final(self).combo == old(self).combo + 1,
            final(self).best_combo == (if old(self).best_combo >= old(self).combo + 1 {
                old(self).best_combo as int
            } else {
                old(self).combo + 1
            }),
            final(self).stars_collected == old(self).stars_collected + 1,
            final(self).score == old(self).score + points_for(old(self).combo + 1, old(self).chosen_difficulty),
            old(self).star_levels_up() ==> {
                &&& final(self).level == old(self).level + 1
                &&& final(self).level_target == level_target(old(self).level + 1)
                &&& level_up == Some(final(self).level)
            },
            !old(self).star_levels_up() ==> {
                &&& final(self).level == old(self).level
                &&& final(self).level_target == old(self).level_target
                &&& level_up is None
            },
            (old(self).mode == GameMode::Classic || old(self).mode == GameMode::Survival)
                && old(self).score + points_for(old(self).combo + 1, old(self).chosen_difficulty) >= old(self).level_target
                ==> level_up == Some((old(self).level + 1) as u32) && final(self).level == old(self).level + 1,
            old(self).score + points_for(old(self).combo + 1, old(self).chosen_difficulty) < old(self).level_target
                ==> level_up is None && final(self).level == old(self).level,
            (old(self).mode == GameMode::Zen || old(self).mode == GameMode::Timed)
                ==> level_up is None && final(self).level == old(self).level,
            final(self).lives == old(self).lives,
            final(self).mode == old(self).mode,
            final(self).chosen_difficulty == old(self).chosen_difficulty,
            final(self).is_new_record == old(self).is_new_record,
            old(self).wf() ==> final(self).wf(),
    {
        self.combo = self.combo + 1;
        if self.combo > self.best_combo {
            self.best_combo = self.combo;
        }
        self.stars_collected = self.stars_collected + 1;
        let pts = self.points_for_collect();
        self.score = self.score + pts;
        if self.mode.has_levels() && self.score >= self.level_target {
            self.level = self.level + 1;
            self.level_target = next_level_target(self.level);
            Some(self.level)
        } else {
            None
        }
    }

    /// A speed power-up was picked up: the combo is lifted to at least 6.
    pub fn apply_speed_powerup(&mut self)
        ensures
            final(self).combo == (if old(self).combo >= 6 { old(self).combo } else { 6 }),
            final(self).best_combo == (if old(self).best_combo >= final(self).combo {
                old(self).best_combo
            } else {
                final(self).combo
            }),
            final(self).score == old(self).score,
            final(self).lives == old(self).lives,
            final(self).stars_collected == old(self).stars_collected,
            final(self).level == old(self).level,
            final(self).level_target == old(self).level_target,
            final(self).mode == old(self).mode,
            final(self).chosen_difficulty == old(self).chosen_difficulty,
            final(self).is_new_record == old(self).is_new_record,
            old(self).wf() ==> final(self).wf(),
    {
        if self.combo < 6 {
            self.combo = 6;
        }
        if self.combo > self.best_combo {
            self.best_combo = self.combo;
        }
    }

    /// The player touched a hazard while vulnerable. A Zen run ignores it;
    /// an active shield absorbs it; otherwise a heart is lost (never below
    /// zero) and the combo breaks. The hit is fatal when no heart is left.
    pub fn apply_hazard_hit(&mut self, shield_active: bool) -> (outcome: HitOutcome)
        ensures
            old(self).mode == GameMode::Zen ==> outcome == HitOutcome::Ignored && *final(self) == *old(self),
            old(self).mode != GameMode::Zen && shield_active ==> outcome == HitOutcome::Shielded
                && *final(self) == *old(self),
            old(self).mode != GameMode::Zen && !shield_active ==> {
                &&& final(self).lives == (if old(self).lives > 0 { old(self).lives - 1 } else { 0 })
                &&& final(self).combo == 0
                &&& outcome == (HitOutcome::Hurt { fatal: final(self).lives == 0 })
                &&& final(self).score == old(self).score
                &&& final(self).best_combo == old(self).best_combo
                &&& final(self).stars_collected == old(self).stars_collected
                &&& final(self).level == old(self).level
                &&& final(self).level_target == old(self).level_target
                &&& final(self).mode == old(self).mode
                &&& final(self).chosen_difficulty == old(self).chosen_difficulty
                &&& final(self).is_new_record == old(self).is_new_record
            },
            old(self).wf() ==> final(self).wf(),
    {
        if !self.mode.has_hazards() {
            return HitOutcome::Ignored;
        }
        if shield_active {
            return HitOutcome::Shielded;
        }
        self.lives = self.lives.saturating_sub(1);
        self.combo = 0;
        HitOutcome::Hurt { fatal: self.lives == 0 }
    }

    /// End of a run: the score is offered to the high-score table, and the
    /// run remembers whether it set a new record.
    pub fn finish_run(&mut self, scores: &mut HighScores)
        ensures
            final(self).is_new_record == (old(self).score > best_for(*old(scores), old(self).mode)),
            best_for(*final(scores), old(self).mode) == (if old(self).score > best_for(*old(scores), old(self).mode) {
                old(self).score
            } else {
                best_for(*old(scores), old(self).mode)
            }),
            forall|m: GameMode| m != old(self).mode ==> best_for(*final(scores), m) == best_for(*old(scores), m),
            final(self).score == old(self).score && final(self).lives == old(self).lives,
            final(self).combo == old(self).combo && final(self).best_combo == old(self).best_combo,
            final(self).stars_collected == old(self).stars_collected,
            final(self).level == old(self).level && final(self).level_target == old(self).level_target,
            final(self).mode == old(self).mode,
            final(self).chosen_difficulty == old(self).chosen_difficulty,
            *final(scores) == recorded(*old(scores), old(self).mode, old(self).score),
            old(self).wf() ==> final(self).wf(),
    {
        self.is_new_record = scores.set_if_better(self.mode, self.score);
    }

    /// Is HUD heart `index` (0 = leftmost) drawn filled? Zen runs always
    /// show full hearts.
    pub fn heart_filled(&self, index: u32) -> (b: bool)
        ensures
            b == (self.mode == GameMode::Zen || index < self.lives),
    {
        self.mode == GameMode::Zen || index < self.lives
    }

    /// Combo multiplier shown on the HUD ("COMBO xN"), once two stars are chained.
    pub fn combo_display(&self) -> (m: Option<u32>)
        ensures
            self.combo >= 2 ==> m == Some((1 + self.combo / 3) as u32),
            self.combo < 2 ==> m is None,
    {
        if self.combo >= 2 {
            Some(1 + self.combo / 3)
        } else {
            None
        }
    }
}

/// In Classic and Survival a star levels up exactly when its points take
/// the score to the current threshold or past it; in Zen and Timed a star
/// never levels up.
pub proof fn law_star_reaching_target_levels_up(s: GameStats)
    ensures
        (s.mode == GameMode::Classic || s.mode == GameMode::Survival)
            ==> (s.star_levels_up() <==> s.score + points_for(s.combo + 1, s.chosen_difficulty) >= s.level_target),
        (s.mode == GameMode::Zen || s.mode == GameMode::Timed) ==> !s.star_levels_up(),
{
}

/// The mode blurbs: classic has 3 hearts and levels; zen has no hazards;
/// survival has a single heart; timed runs last 60 seconds (with 3 hearts).
pub proof fn law_mode_rules()
    ensures
        starting_lives(GameMode::Classic) == 3 && GameMode::Classic.has_levels_spec(),
        starting_lives(GameMode::Survival) == 1 && GameMode::Survival.has_levels_spec(),
        !GameMode::Zen.has_levels_spec() && !GameMode::Timed.has_levels_spec(),
        starting_lives(GameMode::Timed) == 3,
{
}

/// Each level needs a higher score than the one before: from level `l` to
/// `l + 1` the threshold grows by `20 + 3 * (2l - 1)`.
pub proof fn law_level_targets_increase(l: int)
    requires
        l >= 1,
    ensures
        level_target(l + 1) == level_target(l) + 20 + 3 * (2 * l - 1),
        level_target(l) < level_target(l + 1),
{
    assert(3 * l * l == 3 * (l - 1) * (l - 1) + 3 * (2 * l - 1)) by (nonlinear_arith);
    assert(level_target(l + 1) == 15 + 20 * l + 3 * l * l);
}

/// Thresholds are ordered by level.
pub proof fn law_level_targets_ordered(a: int, b: int)
    requires
        1 <= a <= b,
    ensures
        level_target(a) <= level_target(b),
    decreases b - a,
{
    if a < b {
        law_level_targets_ordered(a, b - 1);
        law_level_targets_increase(b - 1);
    }
}

/// A star is worth between 1 and 25 points; longer combos never earn less.
pub proof fn law_points_grow_with_combo(c1: int, c2: int, d: Difficulty)
    requires
        0 <= c1 <= c2,
    ensures
        1 <= points_for(c1, d) <= 25,
        points_for(c1, d) <= points_for(c2, d),
{
    assert(c1 / 3 <= c2 / 3);
    let t1 = combo_tier_of(c1);
    let t2 = combo_tier_of(c2);
    let m = score_mult_hundredths(d);
    assert(t1 * m <= t2 * m) by (nonlinear_arith)
        requires
            t1 <= t2,
            m >= 0,
    ;
    assert(t1 * m <= 10 * 250) by (nonlinear_arith)
        requires
            t1 <= 10,
            0 <= m <= 250,
            t1 >= 0,
    ;
}

/// Harder difficulties pay at least as much per star ("fewer points" on
/// easy, "more" on hard, "highest" on insane).
pub proof fn law_points_grow_with_difficulty(c: int, d1: Difficulty, d2: Difficulty)
    requires
        c >= 0,
        crate::state::difficulty_index(d1) <= crate::state::difficulty_index(d2),
    ensures
        score_mult_hundredths(d1) <= score_mult_hundredths(d2),
        points_for(c, d1) <= points_for(c, d2),
{
    let t = combo_tier_of(c);
    let m1 = score_mult_hundredths(d1);
    let m2 = score_mult_hundredths(d2);
    assert(t * m1 <= t * m2) by (nonlinear_arith)
        requires
            m1 <= m2,
            t >= 0,
    ;
}

} // verus!
