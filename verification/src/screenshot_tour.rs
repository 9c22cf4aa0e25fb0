//! Automated capture of every game screen (`--screenshots`): a fixed
//! script that walks menu -> mode select -> classic play -> combo HUD ->
//! game over -> zen play, taking one screenshot per screen, then exits.
//!
//! The delays between script steps are run by a timer owned by the caller;
//! each call here is one tick on which that timer was checked.

use vstd::prelude::*;
use crate::state::{GameMode, GameState};
use crate::stats::GameStats;

verus! {

/// The six screens the tour captures, in order.
#[derive(Clone, Copy, Debug, PartialEq, Eq, Structural)]
pub enum TourShot {
    Menu,
    ModeSelect,
    PlayingClassic,
    PlayingCombo,
    GameOver,
    PlayingZen,
}

pub open spec fn shot_file_stem(s: TourShot) -> Seq<char> {
    match s {
        TourShot::Menu => "01_menu"@,
        TourShot::ModeSelect => "02_mode_select"@,
        TourShot::PlayingClassic => "03_playing_classic"@,
        TourShot::PlayingCombo => "04_playing_combo"@,
        TourShot::GameOver => "05_game_over"@,
        TourShot::PlayingZen => "06_playing_zen"@,
    }
}

impl TourShot {
    /// File name (without `.png`) of the screenshot.
    pub fn file_stem(self) -> (s: &'static str)
        ensures
            s@ == shot_file_stem(self),
    {
        match self {
            TourShot::Menu => "01_menu",
            TourShot::ModeSelect => "02_mode_select",
            TourShot::PlayingClassic => "03_playing_classic",
            TourShot::PlayingCombo => "04_playing_combo",
            TourShot::GameOver => "05_game_over",
            TourShot::PlayingZen => "06_playing_zen",
        }
    }
}

/// Delay before the first script step, in milliseconds.
pub const TOUR_START_DELAY_MS: u32 = 900;

/// What the caller must do after a tour tick.
#[derive(Clone, Copy, Debug, PartialEq, Eq, Structural)]
pub struct TourAction {
    /// Request this game state.
    pub next_state: Option<GameState>,
    /// Capture this screen now.
    pub shot: Option<TourShot>,
    /// Restart the step timer with this delay (milliseconds).
    pub rearm_ms: Option<u32>,
    /// Pick this mode before the next run starts.
    pub select_mode: Option<GameMode>,
    /// Set the run's combo timer and intensity for the combo screenshot.
    pub combo_demo: bool,
    /// Quit the application: the tour is over.
    pub exit: bool,
}

/// Tour progress.
#[derive(Clone, Copy, Debug, PartialEq, Eq, Structural)]
pub struct ScreenshotTour {
    /// Script step (0..=10; 11 and beyond means done).
    pub step: u32,
    /// A screenshot was requested and the tour waits for it to land.
    pub waiting_capture: bool,
    /// Screenshots taken so far.
    pub shots_done: u32,
}

/// Script steps that take a screenshot.
pub open spec fn is_shot_step(step: int) -> bool {
    step == 0 || step == 2 || step == 4 || step == 6 || step == 8 || step == 10
}

/// Screenshots taken before script step `step` is reached.
pub open spec fn shots_before(step: int) -> int {
    if step >= 11 { 6 } else { (step + 1) / 2 }
}

/// The screen captured at a shot step and the game state it needs.
pub open spec fn shot_of_step(step: int) -> TourShot {
    if step == 0 {
        TourShot::Menu
    } else if step == 2 {
        TourShot::ModeSelect
    } else if step == 4 {
        TourShot::PlayingClassic
    } else if step == 6 {
        TourShot::PlayingCombo
    } else if step == 8 {
        TourShot::GameOver
    } else {
        TourShot::PlayingZen
    }
}

pub open spec fn state_for_shot(s: TourShot) -> GameState {
    match s {
        TourShot::Menu => GameState::Menu,
        TourShot::ModeSelect => GameState::ModeSelect,
        TourShot::PlayingClassic | TourShot::PlayingCombo | TourShot::PlayingZen => GameState::Playing,
        TourShot::GameOver => GameState::GameOver,
    }
}

/// No game-state request, screenshot, mode pick or exit; maybe a new delay.
pub open spec fn quiet(a: TourAction, rearm: Option<u32>) -> bool {
    &&& a.next_state is None
    &&& a.shot is None
    &&& a.rearm_ms == rearm
    &&& a.select_mode is None
    &&& !a.combo_demo
    &&& !a.exit
}

impl Default for ScreenshotTour {
    fn default() -> (t: Self)
        ensures
            t.step == 0 && !t.waiting_capture && t.shots_done == 0,
            t.wf(),
    {
        ScreenshotTour { step: 0, waiting_capture: false, shots_done: 0 }
    }
}

impl ScreenshotTour {
    /// The tour waits only on shot steps, and has taken one screenshot per
    /// shot step passed, plus the one being waited for.
    pub open spec fn wf(self) -> bool {
        &&& self.waiting_capture ==> is_shot_step(self.step as int)
        &&& self.shots_done == shots_before(self.step as int) + (if self.waiting_capture { 1int } else { 0 })
    }

    /// One tour tick; `timer_finished` tells whether the step delay ran out
    /// on this tick and `state` is the current game state. Stats are staged
    /// for the combo and game-over screenshots.
    pub fn run_tour(&mut self, timer_finished: bool, state: GameState, stats: &mut GameStats) -> (a: TourAction)
        requires
            old(self).wf(),
        ensures
            final(self).wf(),
            // Waiting for a capture: move on to the next step once the delay ran out.
            old(self).waiting_capture ==> {
                &&& *final(stats) == *old(stats)
                &&& timer_finished ==> {
                    &&& final(self).step == old(self).step + 1 && !final(self).waiting_capture
                    &&& quiet(a, Some(550u32))
                }
                &&& !timer_finished ==> *final(self) == *old(self) && quiet(a, None)
            },
            // Delay not over yet: nothing happens.
            !old(self).waiting_capture && !timer_finished ==> {
                &&& *final(self) == *old(self) && *final(stats) == *old(stats) && quiet(a, None)
            },
            // Shot steps: capture once the screen is up, otherwise wait a bit
            // (step 0 first asks for the menu).
            !old(self).waiting_capture && timer_finished && is_shot_step(old(self).step as int) ==> {
                let shot = shot_of_step(old(self).step as int);
                &&& *final(stats) == *old(stats)
                &&& (state == state_for_shot(shot) || shot == TourShot::PlayingCombo) ==> {
                    &&& a.shot == Some(shot)
                    &&& final(self).waiting_capture
                    &&& final(self).step == old(self).step
                    &&& a.next_state is None && a.select_mode is None && !a.combo_demo && !a.exit
                    &&& a.rearm_ms == Some(if old(self).step <= 4 { 450u32 } else { 500u32 })
                }
                &&& !(state == state_for_shot(shot) || shot == TourShot::PlayingCombo) ==> {
                    &&& *final(self) == *old(self)
                    &&& a.shot is None && a.select_mode is None && !a.combo_demo && !a.exit
                    &&& old(self).step == 0 ==> a.next_state == Some(GameState::Menu) && a.rearm_ms == Some(600u32)
                    &&& old(self).step != 0 ==> a.next_state is None && a.rearm_ms == Some(300u32)
                }
            },
            // Transition steps: request the next screen and advance.
            !old(self).waiting_capture && timer_finished && old(self).step == 1 ==> {
                &&& !final(self).waiting_capture && final(self).step == 2 && *final(stats) == *old(stats)
                &&& a.next_state == Some(GameState::ModeSelect) && a.rearm_ms == Some(700u32)
                &&& a.shot is None && a.select_mode is None && !a.combo_demo && !a.exit
            },
            !old(self).waiting_capture && timer_finished && old(self).step == 3 ==> {
                &&& !final(self).waiting_capture && final(self).step == 4 && *final(stats) == *old(stats)
                &&& a.select_mode == Some(GameMode::Classic)
                &&& a.next_state == Some(GameState::Playing) && a.rearm_ms == Some(1400u32)
                &&& a.shot is None && !a.combo_demo && !a.exit
            },
            !old(self).waiting_capture && timer_finished && old(self).step == 5 ==> {
                &&& final(self).step == 6 && !final(self).waiting_capture
                &&& final(stats).score == 42 && final(stats).combo == 9
                &&& final(stats).level == 2 && final(stats).level_target == 35 && final(stats).lives == 2
                &&& final(stats).best_combo == old(stats).best_combo
                &&& final(stats).stars_collected == old(stats).stars_collected
                &&& final(stats).mode == old(stats).mode
                &&& final(stats).chosen_difficulty == old(stats).chosen_difficulty
                &&& final(stats).is_new_record == old(stats).is_new_record
                &&& a.combo_demo && a.rearm_ms == Some(350u32)
                &&& a.next_state is None && a.shot is None && a.select_mode is None && !a.exit
            },
            !old(self).waiting_capture && timer_finished && old(self).step == 7 ==> {
                &&& final(self).step == 8 && !final(self).waiting_capture
                &&& final(stats).is_new_record && final(stats).score == 42 && final(stats).best_combo == 9
                &&& final(stats).stars_collected == 20 && final(stats).level == 2
                &&& final(stats).combo == old(stats).combo && final(stats).lives == old(stats).lives
                &&& final(stats).level_target == old(stats).level_target
                &&& final(stats).mode == old(stats).mode
                &&& final(stats).chosen_difficulty == old(stats).chosen_difficulty
                &&& a.next_state == Some(GameState::GameOver) && a.rearm_ms == Some(800u32)
                &&& a.shot is None && a.select_mode is None && !a.combo_demo && !a.exit
            },
            !old(self).waiting_capture && timer_finished && old(self).step == 9 ==> {
                &&& final(self).step == 10 && !final(self).waiting_capture && *final(stats) == *old(stats)
                &&& a.select_mode == Some(GameMode::Zen)
                &&& a.next_state == Some(GameState::Playing) && a.rearm_ms == Some(1000u32)
                &&& a.shot is None && !a.combo_demo && !a.exit
            },
            // Past the last step: quit.
            !old(self).waiting_capture && timer_finished && old(self).step >= 11 ==> {
                &&& *final(self) == *old(self) && *final(stats) == *old(stats)
                &&& a.exit && a.next_state is None && a.shot is None && a.rearm_ms is None
                &&& a.select_mode is None && !a.combo_demo
            },
            // The script only moves forward, one step at a time.
            old(self).step <= final(self).step <= old(self).step + 1,
            // Every screenshot is counted, and only screenshots are counted.
            final(self).shots_done == old(self).shots_done + (if a.shot is Some { 1int } else { 0 }),
            // A screen is captured only while the game shows it (the combo
            // shot follows directly on the classic run).
            a.shot matches Some(sh) ==> (state == state_for_shot(sh) || sh == TourShot::PlayingCombo),
            // The tour quits only after all six screenshots were taken.
            a.exit ==> final(self).shots_done == 6,
    {
        let mut a = TourAction {
            next_state: None,
            shot: None,
            rearm_ms: None,
            select_mode: None,
            combo_demo: false,
            exit: false,
        };
        if self.waiting_capture {
            if timer_finished {
                self.waiting_capture = false;
                a.rearm_ms = Some(550);
                self.step = self.step + 1;
            }
            return a;
        }
        if !timer_finished {
            return a;
        }
        match self.step {
            0 => {
                if state != GameState::Menu {
                    a.next_state = Some(GameState::Menu);
                    a.rearm_ms = Some(600);
                    return a;
                }
                self.take_shot(&mut a, TourShot::Menu, 450);
            },
            1 => {
                a.next_state = Some(GameState::ModeSelect);
                a.rearm_ms = Some(700);
                self.step = self.step + 1;
            },
            2 => {
                if state != GameState::ModeSelect {
                    a.rearm_ms = Some(300);
                    return a;
                }
                self.take_shot(&mut a, TourShot::ModeSelect, 450);
            },
            3 => {
                a.select_mode = Some(GameMode::Classic);
                a.next_state = Some(GameState::Playing);
                a.rearm_ms = Some(1400);
                self.step = self.step + 1;
            },
            4 => {
                if state != GameState::Playing {
                    a.rearm_ms = Some(300);
                    return a;
                }
                self.take_shot(&mut a, TourShot::PlayingClassic, 450);
            },
            5 => {
                stats.score = 42;
                stats.combo = 9;
                stats.level = 2;
                stats.level_target = 35;
                stats.lives = 2;
                a.combo_demo = true;
                a.rearm_ms = Some(350);
                self.step = self.step + 1;
            },
            6 => {
                self.take_shot(&mut a, TourShot::PlayingCombo, 500);
            },
            7 => {
                stats.is_new_record = true;
                stats.score = 42;
                stats.best_combo = 9;
                stats.stars_collected = 20;
                stats.level = 2;
                a.next_state = Some(GameState::GameOver);
                a.rearm_ms = Some(800);
                self.step = self.step + 1;
            },
            8 => {
                if state != GameState::GameOver {
                    a.rearm_ms = Some(300);
                    return a;
                }
                self.take_shot(&mut a, TourShot::GameOver, 500);
            },
            9 => {
                a.select_mode = Some(GameMode::Zen);
                a.next_state = Some(GameState::Playing);
                a.rearm_ms = Some(1000);
                self.step = self.step + 1;
            },
            10 => {
                if state != GameState::Playing {
                    a.rearm_ms = Some(300);
                    return a;
                }
                self.take_shot(&mut a, TourShot::PlayingZen, 500);
            },
            _ => {
                a.exit = true;
            },
        }
        a
    }

    /// Request screenshot `shot` and wait `delay_ms` for it to land.
    fn take_shot(&mut self, a: &mut TourAction, shot: TourShot, delay_ms: u32)
        requires
            old(self).wf(),
            !old(self).waiting_capture,
            is_shot_step(old(self).step as int),
        ensures
            final(self).wf(),
            final(self).step == old(self).step,
            final(self).waiting_capture,
            final(a).shot == Some(shot),
            final(a).rearm_ms == Some(delay_ms),
            final(a).next_state == old(a).next_state,
            final(a).select_mode == old(a).select_mode,
            final(a).combo_demo == old(a).combo_demo,
            final(a).exit == old(a).exit,
    {
        a.shot = Some(shot);
        self.shots_done = self.shots_done + 1;
        self.waiting_capture = true;
        a.rearm_ms = Some(delay_ms);
    }
}

} // verus!
