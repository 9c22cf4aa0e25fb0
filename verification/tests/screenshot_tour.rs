use rusty_dasher::screenshot_tour::{ScreenshotTour, TourShot, TOUR_START_DELAY_MS};
use rusty_dasher::state::{Difficulty, GameMode, GameState};
use rusty_dasher::stats::GameStats;

#[test]
fn full_tour_takes_six_shots_and_exits() {
    let mut tour = ScreenshotTour::default();
    let mut stats = GameStats::for_mode(GameMode::Classic, Difficulty::Normal);
    let mut state = GameState::Playing; // the tour first asks for the menu
    let mut mode = GameMode::Classic;
    let mut shots = Vec::new();
    let mut exited = false;
    let mut combo_demo = false;
    assert_eq!(TOUR_START_DELAY_MS, 900);
    for _ in 0..200 {
        let a = tour.run_tour(true, state, &mut stats);
        if let Some(s) = a.next_state {
            state = s;
        }
        if let Some(m) = a.select_mode {
            mode = m;
        }
        if let Some(sh) = a.shot {
            shots.push(sh.file_stem());
        }
        combo_demo |= a.combo_demo;
        if a.exit {
            exited = true;
            break;
        }
    }
    assert!(exited);
    assert!(combo_demo);
    assert_eq!(
        shots,
        vec!["01_menu", "02_mode_select", "03_playing_classic", "04_playing_combo", "05_game_over", "06_playing_zen"]
    );
    assert_eq!(tour.shots_done, 6);
    assert_eq!(mode, GameMode::Zen);
    assert!(stats.is_new_record);
    assert_eq!((stats.score, stats.best_combo, stats.stars_collected, stats.level), (42, 9, 20, 2));
    assert_eq!((stats.combo, stats.level_target, stats.lives), (9, 35, 2));
}

#[test]
fn waits_for_timer_and_screens() {
    let mut tour = ScreenshotTour::default();
    let mut stats = GameStats::for_mode(GameMode::Classic, Difficulty::Normal);
    let a = tour.run_tour(false, GameState::Menu, &mut stats);
    assert!(a.shot.is_none() && a.rearm_ms.is_none() && !a.exit);
    let a = tour.run_tour(true, GameState::Playing, &mut stats);
    assert_eq!(a.next_state, Some(GameState::Menu));
    assert_eq!(a.rearm_ms, Some(600));
    assert_eq!(tour.step, 0);
    let a = tour.run_tour(true, GameState::Menu, &mut stats);
    assert_eq!(a.shot, Some(TourShot::Menu));
    assert_eq!(a.rearm_ms, Some(450));
    assert!(tour.waiting_capture);
    // Waiting: nothing until the capture delay ran out.
    let a = tour.run_tour(false, GameState::Menu, &mut stats);
    assert!(a.shot.is_none() && tour.waiting_capture);
    let a = tour.run_tour(true, GameState::Menu, &mut stats);
    assert_eq!(a.rearm_ms, Some(550));
    assert_eq!(tour.step, 1);
    let a = tour.run_tour(true, GameState::Menu, &mut stats);
    assert_eq!(a.next_state, Some(GameState::ModeSelect));
    assert_eq!(a.rearm_ms, Some(700));
    // Mode select not shown yet: retry in 300 ms.
    let a = tour.run_tour(true, GameState::Menu, &mut stats);
    assert!(a.shot.is_none());
    assert_eq!(a.rearm_ms, Some(300));
    assert_eq!(tour.step, 2);
}
