use rusty_dasher::state::{Difficulty, GameMode, GameState, SelectedDifficulty, SelectedMode};

#[test]
fn labels() {
    assert_eq!(GameMode::Classic.label(), "CLASSIC");
    assert_eq!(GameMode::Timed.label(), "TIMED 60s");
    assert_eq!(GameMode::Zen.blurb(), "No hazards - chill collecting");
    assert_eq!(GameMode::Survival.blurb_short(), "1 heart - high stakes");
    assert_eq!(Difficulty::Insane.label(), "INSANE");
    assert_eq!(Difficulty::Easy.blurb(), "Slower game, fewer points per star");
    assert_eq!(GameState::ModeSelect.qa_label(), "mode_select");
    assert_eq!(GameState::GameOver.qa_label(), "game_over");
    assert_eq!(GameState::default().qa_label(), "menu");
}

#[test]
fn multipliers_in_hundredths() {
    let score: Vec<u32> = Difficulty::ALL.iter().map(|d| d.score_mult()).collect();
    let speed: Vec<u32> = Difficulty::ALL.iter().map(|d| d.speed_mult()).collect();
    assert_eq!(score, vec![75, 100, 150, 250]);
    assert_eq!(speed, vec![85, 100, 130, 165]);
}

#[test]
fn cycling_wraps_both_ways() {
    assert_eq!(GameMode::Classic.prev(), GameMode::Timed);
    assert_eq!(GameMode::Timed.next(), GameMode::Classic);
    for (i, m) in GameMode::ALL.iter().enumerate() {
        assert_eq!(m.index(), i);
        assert_eq!(GameMode::from_index(i), *m);
        assert_eq!(m.next().prev(), *m);
        assert_eq!(m.next().next().next().next(), *m);
    }
    assert_eq!(Difficulty::Easy.easier(), Difficulty::Insane);
    assert_eq!(Difficulty::Insane.harder(), Difficulty::Easy);
    for (i, d) in Difficulty::ALL.iter().enumerate() {
        assert_eq!(d.index(), i);
        assert_eq!(Difficulty::from_index(i), *d);
        assert_eq!(d.harder().easier(), *d);
    }
}

#[test]
fn defaults_and_mode_traits() {
    assert_eq!(GameMode::default(), GameMode::Classic);
    assert_eq!(Difficulty::default(), Difficulty::Normal);
    assert_eq!(SelectedMode::default().0, GameMode::Classic);
    assert_eq!(SelectedDifficulty::default().0, Difficulty::Normal);
    assert!(GameMode::Classic.has_levels() && GameMode::Survival.has_levels());
    assert!(!GameMode::Zen.has_levels() && !GameMode::Timed.has_levels());
    assert!(!GameMode::Zen.has_hazards() && GameMode::Timed.has_hazards());
}
