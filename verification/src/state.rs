//! Game flow states, game modes and difficulty levels.

use vstd::prelude::*;

verus! {

/// Top-level screen the game is on.
#[derive(Clone, Copy, Debug, PartialEq, Eq, Hash, Structural)]
pub enum GameState {
    Menu,
    ModeSelect,
    Playing,
    GameOver,
}

impl Default for GameState {
    fn default() -> (s: Self)
        ensures
            s == GameState::Menu,
    {
        GameState::Menu
    }
}

pub open spec fn game_state_qa_label(s: GameState) -> Seq<char> {
    match s {
        GameState::Menu => "menu"@,
        GameState::ModeSelect => "mode_select"@,
        GameState::Playing => "playing"@,
        GameState::GameOver => "game_over"@,
    }
}

impl GameState {
    /// Label published for page-level QA scripts.
    pub fn qa_label(self) -> (s: &'static str)
        ensures
            s@ == game_state_qa_label(self),
    {
        match self {
            GameState::Menu => "menu",
            GameState::ModeSelect => "mode_select",
            GameState::Playing => "playing",
            GameState::GameOver => "game_over",
        }
    }
}


/// Rule set of a run.
#[derive(Clone, Copy, Debug, PartialEq, Eq, Hash, Structural)]
pub enum GameMode {
    Classic,
    Zen,
    Survival,
    Timed,
}

impl Default for GameMode {
    fn default() -> (m: Self)
        ensures
            m == GameMode::Classic,
    {
        GameMode::Classic
    }
}

/// Position of a mode in the mode list (`GameMode::ALL`).
pub open spec fn mode_index(m: GameMode) -> int {
    match m {
        GameMode::Classic => 0,
        GameMode::Zen => 1,
        GameMode::Survival => 2,
        GameMode::Timed => 3,
    }
}

/// The mode at position `i` of the mode list (`0 <= i < 4`).
pub open spec fn mode_at(i: int) -> GameMode {
    if i == 0 {
        GameMode::Classic
    } else if i == 1 {
        GameMode::Zen
    } else if i == 2 {
        GameMode::Survival
    } else {
        GameMode::Timed
    }
}

/// The mode below `m` in the list (wrapping).
pub open spec fn next_mode(m: GameMode) -> GameMode {
    mode_at((mode_index(m) + 1) % 4)
}

/// The mode above `m` in the list (wrapping).
pub open spec fn prev_mode(m: GameMode) -> GameMode {
    mode_at((mode_index(m) + 3) % 4)
}

pub open spec fn mode_label(m: GameMode) -> Seq<char> {
    match m {
        GameMode::Classic => "CLASSIC"@,
        GameMode::Zen => "ZEN"@,
        GameMode::Survival => "SURVIVAL"@,
        GameMode::Timed => "TIMED 60s"@,
    }
}

pub open spec fn mode_blurb(m: GameMode) -> Seq<char> {
    match m {
        GameMode::Classic => "3 hearts, levels, power-ups"@,
        GameMode::Zen => "No hazards - chill collecting"@,
        GameMode::Survival => "1 heart - high stakes"@,
        GameMode::Timed => "60 seconds - score attack"@,
    }
}

impl GameMode {
    /// Every mode, in menu order.
    pub const ALL: [GameMode; 4] = [
        GameMode::Classic,
        GameMode::Zen,
        GameMode::Survival,
        GameMode::Timed,
    ];

    pub fn label(self) -> (s: &'static str)
        ensures
            s@ == mode_label(self),
    {
        match self {
            GameMode::Classic => "CLASSIC",
            GameMode::Zen => "ZEN",
            GameMode::Survival => "SURVIVAL",
            GameMode::Timed => "TIMED 60s",
        }
    }

    pub fn blurb(self) -> (s: &'static str)
        ensures
            s@ == mode_blurb(self),
    {
        self.blurb_short()
    }

    pub fn blurb_short(self) -> (s: &'static str)
        ensures
            s@ == mode_blurb(self),
    {
        match self {
            GameMode::Classic => "3 hearts, levels, power-ups",
            GameMode::Zen => "No hazards - chill collecting",
            GameMode::Survival => "1 heart - high stakes",
            GameMode::Timed => "60 seconds - score attack",
        }
    }

    /// Position of this mode in `GameMode::ALL`.
    pub fn index(self) -> (i: usize)
        ensures
            i == mode_index(self),
            i < 4,
    {
        match self {
            GameMode::Classic => 0,
            GameMode::Zen => 1,
            GameMode::Survival => 2,
            GameMode::Timed => 3,
        }
    }

    /// Mode list entry `i`.
    pub fn from_index(i: usize) -> (m: GameMode)
        requires
            i < 4,
        ensures
            m == mode_at(i as int),
            mode_index(m) == i,
    {
        if i == 0 {
            GameMode::Classic
        } else if i == 1 {
            GameMode::Zen
        } else if i == 2 {
            GameMode::Survival
        } else {
            GameMode::Timed
        }
    }

    /// Mode below this one in the menu list, wrapping from the last to the first.
    pub fn next(self) -> (m: GameMode)
        ensures
            m == next_mode(self),
            mode_index(m) == (mode_index(self) + 1) % 4,
    {
        GameMode::from_index((self.index() + 1) % 4)
    }

    /// Mode above this one in the menu list, wrapping from the first to the last.
    pub fn prev(self) -> (m: GameMode)
        ensures
            m == prev_mode(self),
            mode_index(m) == (mode_index(self) + 3) % 4,
    {
        let idx = self.index();
        let new_idx = if idx == 0 { 3 } else { idx - 1 };
        GameMode::from_index(new_idx)
    }

    pub open spec fn has_levels_spec(self) -> bool {
        self == GameMode::Classic || self == GameMode::Survival
    }

    /// Modes that ramp through levels as the score grows.
    pub fn has_levels(self) -> (b: bool)
        ensures
            b == self.has_levels_spec(),
    {
        matches!(self, GameMode::Classic | GameMode::Survival)
    }

    /// Modes in which hazards spawn and can hurt the player.
    pub fn has_hazards(self) -> (b: bool)
        ensures
            b == (self != GameMode::Zen),
    {
        !matches!(self, GameMode::Zen)
    }

    /// Length of a run in seconds for the timed mode; 0 (no limit) otherwise.
    pub fn time_limit_secs(self) -> (t: u32)
        ensures
            t == (if self == GameMode::Timed { 60u32 } else { 0u32 }),
    {
        match self {
            GameMode::Timed => 60,
            _ => 0,
        }
    }
}

/// Chosen difficulty: scales game speed and points per star.
#[derive(Clone, Copy, Debug, PartialEq, Eq, Hash, Structural)]
pub enum Difficulty {
    Easy,
    Normal,
    Hard,
    Insane,
}

impl Default for Difficulty {
    fn default() -> (d: Self)
        ensures
            d == Difficulty::Normal,
    {
        Difficulty::Normal
    }
}

pub open spec fn difficulty_index(d: Difficulty) -> int {
    match d {
        Difficulty::Easy => 0,
        Difficulty::Normal => 1,
        Difficulty::Hard => 2,
        Difficulty::Insane => 3,
    }
}

pub open spec fn difficulty_at(i: int) -> Difficulty {
    if i == 0 {
        Difficulty::Easy
    } else if i == 1 {
        Difficulty::Normal
    } else if i == 2 {
        Difficulty::Hard
    } else {
        Difficulty::Insane
    }
}

/// One step harder (wrapping).
pub open spec fn harder_of(d: Difficulty) -> Difficulty {
    difficulty_at((difficulty_index(d) + 1) % 4)
}

/// One step easier (wrapping).
pub open spec fn easier_of(d: Difficulty) -> Difficulty {
    difficulty_at((difficulty_index(d) + 3) % 4)
}

pub open spec fn difficulty_label(d: Difficulty) -> Seq<char> {
    match d {
        Difficulty::Easy => "EASY"@,
        Difficulty::Normal => "NORMAL"@,
        Difficulty::Hard => "HARD"@,
        Difficulty::Insane => "INSANE"@,
    }
}

pub open spec fn difficulty_blurb(d: Difficulty) -> Seq<char> {
    match d {
        Difficulty::Easy => "Slower game, fewer points per star"@,
        Difficulty::Normal => "Standard speed and score"@,
        Difficulty::Hard => "Faster game, more points per star"@,
        Difficulty::Insane => "Very fast, highest points per star"@,
    }
}

/// Score multiplier in hundredths (x0.75, x1.0, x1.5, x2.5).
pub open spec fn score_mult_hundredths(d: Difficulty) -> int {
    match d {
        Difficulty::Easy => 75,
        Difficulty::Normal => 100,
        Difficulty::Hard => 150,
        Difficulty::Insane => 250,
    }
}

/// Speed multiplier in hundredths (x0.85, x1.0, x1.3, x1.65).
pub open spec fn speed_mult_hundredths(d: Difficulty) -> int {
    match d {
        Difficulty::Easy => 85,
        Difficulty::Normal => 100,
        Difficulty::Hard => 130,
        Difficulty::Insane => 165,
    }
}

impl Difficulty {
    /// Every difficulty, from easiest to hardest.
    pub const ALL: [Difficulty; 4] = [
        Difficulty::Easy,
        Difficulty::Normal,
        Difficulty::Hard,
        Difficulty::Insane,
    ];

    pub fn label(self) -> (s: &'static str)
        ensures
            s@ == difficulty_label(self),
    {
        match self {
            Difficulty::Easy => "EASY",
            Difficulty::Normal => "NORMAL",
            Difficulty::Hard => "HARD",
            Difficulty::Insane => "INSANE",
        }
    }

    pub fn blurb(self) -> (s: &'static str)
        ensures
            s@ == difficulty_blurb(self),
    {
        match self {
            Difficulty::Easy => "Slower game, fewer points per star",
            Difficulty::Normal => "Standard speed and score",
            Difficulty::Hard => "Faster game, more points per star",
            Difficulty::Insane => "Very fast, highest points per star",
        }
    }

    /// Points multiplier, in hundredths.
    pub fn score_mult(self) -> (m: u32)
        ensures
            m == score_mult_hundredths(self),
    {
        match self {
            Difficulty::Easy => 75,
            Difficulty::Normal => 100,
            Difficulty::Hard => 150,
            Difficulty::Insane => 250,
        }
    }

    /// Game speed multiplier, in hundredths.
    pub fn speed_mult(self) -> (m: u32)
        ensures
            m == speed_mult_hundredths(self),
    {
        match self {
            Difficulty::Easy => 85,
            Difficulty::Normal => 100,
            Difficulty::Hard => 130,
            Difficulty::Insane => 165,
        }
    }

    /// Position of this difficulty in `Difficulty::ALL`.
    pub fn index(self) -> (i: usize)
        ensures
            i == difficulty_index(self),
            i < 4,
    {
        match self {
            Difficulty::Easy => 0,
            Difficulty::Normal => 1,
            Difficulty::Hard => 2,
            Difficulty::Insane => 3,
        }
    }

    /// Difficulty list entry `i`.
    pub fn from_index(i: usize) -> (d: Difficulty)
        requires
            i < 4,
        ensures
            d == difficulty_at(i as int),
            difficulty_index(d) == i,
    {
        if i == 0 {
            Difficulty::Easy
        } else if i == 1 {
            Difficulty::Normal
        } else if i == 2 {
            Difficulty::Hard
        } else {
            Difficulty::Insane
        }
    }

    /// One step harder, wrapping from the hardest to the easiest.
    pub fn harder(self) -> (d: Difficulty)
        ensures
            d == harder_of(self),
            difficulty_index(d) == (difficulty_index(self) + 1) % 4,
    {
        Difficulty::from_index((self.index() + 1) % 4)
    }

    /// One step easier, wrapping from the easiest to the hardest.
    pub fn easier(self) -> (d: Difficulty)
        ensures
            d == easier_of(self),
            difficulty_index(d) == (difficulty_index(self) + 3) % 4,
    {
        let idx = self.index();
        let new_idx = if idx == 0 { 3 } else { idx - 1 };
        Difficulty::from_index(new_idx)
    }
}

/// Moving down then up (or up then down) in the mode list returns to the
/// same mode, and four steps down go all the way round.
pub proof fn law_mode_cycle(m: GameMode)
    ensures
        prev_mode(next_mode(m)) == m,
        next_mode(prev_mode(m)) == m,
        next_mode(next_mode(next_mode(next_mode(m)))) == m,
        mode_at(mode_index(m)) == m,
{
}

/// Harder then easier (or easier then harder) is no change, and four
/// steps harder go all the way round.
pub proof fn law_difficulty_cycle(d: Difficulty)
    ensures
        easier_of(harder_of(d)) == d,
        harder_of(easier_of(d)) == d,
        harder_of(harder_of(harder_of(harder_of(d)))) == d,
        difficulty_at(difficulty_index(d)) == d,
{
}

/// Harder difficulties run faster and pay more per star.
pub proof fn law_difficulty_scales_up(d1: Difficulty, d2: Difficulty)
    requires
        difficulty_index(d1) < difficulty_index(d2),
    ensures
        speed_mult_hundredths(d1) < speed_mult_hundredths(d2),
        score_mult_hundredths(d1) < score_mult_hundredths(d2),
{
}

/// Mode picked on the mode-select screen.
#[derive(Clone, Copy, Debug, PartialEq, Eq, Structural)]
pub struct SelectedMode(pub GameMode);

/// Difficulty picked on the mode-select screen.
#[derive(Clone, Copy, Debug, PartialEq, Eq, Structural)]
pub struct SelectedDifficulty(pub Difficulty);

impl Default for SelectedMode {
    fn default() -> (s: Self)
        ensures
            s.0 == GameMode::Classic,
    {
        SelectedMode(GameMode::Classic)
    }
}

impl Default for SelectedDifficulty {
    fn default() -> (s: Self)
        ensures
            s.0 == Difficulty::Normal,
    {
        SelectedDifficulty(Difficulty::Normal)
    }
}

} // verus!
