use rusty_dasher::save::HighScores;
use rusty_dasher::state::{Difficulty, GameMode, GameState};
use rusty_dasher::ui::{game_over_input, mode_list_rows, mode_select_input, playing_escape, menu_input, MenuKeys};

fn keys() -> MenuKeys {
    MenuKeys { confirm: false, back: false, up: false, down: false, left: false, right: false }
}

#[test]
fn title_screen() {
    let d = menu_input(MenuKeys { confirm: true, ..keys() });
    assert_eq!(d.next_state, Some(GameState::ModeSelect));
    assert!(!d.quit);
    let d = menu_input(MenuKeys { back: true, ..keys() });
    assert_eq!(d.next_state, None);
    assert!(d.quit);
}

#[test]
fn mode_select_moves_and_wraps() {
    let d = mode_select_input(MenuKeys { up: true, ..keys() }, GameMode::Classic, Difficulty::Normal);
    assert_eq!(d.mode, GameMode::Timed);
    assert!(d.changed);
    let d = mode_select_input(MenuKeys { down: true, ..keys() }, GameMode::Timed, Difficulty::Normal);
    assert_eq!(d.mode, GameMode::Classic);
    let d = mode_select_input(MenuKeys { left: true, ..keys() }, GameMode::Zen, Difficulty::Easy);
    assert_eq!(d.difficulty, Difficulty::Insane);
    let d = mode_select_input(MenuKeys { right: true, ..keys() }, GameMode::Zen, Difficulty::Insane);
    assert_eq!(d.difficulty, Difficulty::Easy);
    // Up and down together cancel but still redraw.
    let d = mode_select_input(MenuKeys { up: true, down: true, ..keys() }, GameMode::Zen, Difficulty::Hard);
    assert_eq!((d.mode, d.difficulty, d.changed), (GameMode::Zen, Difficulty::Hard, true));
    let d = mode_select_input(keys(), GameMode::Zen, Difficulty::Hard);
    assert!(!d.changed && d.next_state.is_none());
    let d = mode_select_input(MenuKeys { confirm: true, ..keys() }, GameMode::Zen, Difficulty::Hard);
    assert_eq!(d.next_state, Some(GameState::Playing));
    let d = mode_select_input(MenuKeys { confirm: true, back: true, ..keys() }, GameMode::Zen, Difficulty::Hard);
    assert_eq!(d.next_state, Some(GameState::Menu));
}

#[test]
fn game_over_and_escape() {
    assert_eq!(game_over_input(MenuKeys { confirm: true, ..keys() }), Some(GameState::Playing));
    assert_eq!(game_over_input(MenuKeys { back: true, ..keys() }), Some(GameState::Menu));
    assert_eq!(game_over_input(MenuKeys { confirm: true, back: true, ..keys() }), Some(GameState::Menu));
    assert_eq!(game_over_input(keys()), None);
    assert_eq!(playing_escape(MenuKeys { back: true, ..keys() }), Some(GameState::Menu));
    assert_eq!(playing_escape(MenuKeys { confirm: true, ..keys() }), None);
}

#[test]
fn mode_rows() {
    let hs = HighScores { classic: 12, zen: 0, survival: 3, timed: 44 };
    let rows = mode_list_rows(&hs, GameMode::Survival);
    assert_eq!(rows.len(), 4);
    let modes: Vec<GameMode> = rows.iter().map(|r| r.mode).collect();
    assert_eq!(modes, GameMode::ALL.to_vec());
    let bests: Vec<u32> = rows.iter().map(|r| r.best).collect();
    assert_eq!(bests, vec![12, 0, 3, 44]);
    let sel: Vec<bool> = rows.iter().map(|r| r.selected).collect();
    assert_eq!(sel, vec![false, false, true, false]);
}
