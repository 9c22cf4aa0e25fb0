use rusty_dasher::save::HighScores;
use rusty_dasher::state::{Difficulty, GameMode};
use rusty_dasher::stats::{combo_tier, next_level_target, GameStats, HitOutcome};

#[test]
fn fresh_runs_per_mode() {
    let c = GameStats::for_mode(GameMode::Classic, Difficulty::Normal);
    assert_eq!((c.lives, c.level, c.level_target, c.score, c.combo), (3, 1, 15, 0, 0));
    assert_eq!(GameStats::for_mode(GameMode::Zen, Difficulty::Easy).lives, 99);
    assert_eq!(GameStats::for_mode(GameMode::Survival, Difficulty::Hard).lives, 1);
    let t = GameStats::for_mode(GameMode::Timed, Difficulty::Insane);
    assert_eq!(t.lives, 3);
    assert_eq!(t.mode, GameMode::Timed);
    assert_eq!(t.chosen_difficulty, Difficulty::Insane);
    assert!(!t.is_new_record);
    assert_eq!(GameMode::Timed.time_limit_secs(), 60);
    assert_eq!(GameMode::Classic.time_limit_secs(), 0);
}

#[test]
fn level_targets() {
    assert_eq!(next_level_target(0), 15);
    assert_eq!(next_level_target(1), 15);
    assert_eq!(next_level_target(2), 38);
    assert_eq!(next_level_target(3), 67);
    assert_eq!(next_level_target(4), 15 + 60 + 27);
    assert_eq!(next_level_target(10), 15 + 9 * 20 + 81 * 3);
    // Strictly increasing over the first levels.
    let mut prev = next_level_target(1);
    for l in 2..200 {
        let t = next_level_target(l);
        assert!(t > prev);
        prev = t;
    }
}

#[test]
fn points_per_star() {
    let mut s = GameStats::for_mode(GameMode::Classic, Difficulty::Normal);
    assert_eq!(s.points_for_collect(), 1);
    s.combo = 3;
    assert_eq!(s.points_for_collect(), 2);
    s.combo = 100;
    assert_eq!(s.points_for_collect(), 10);
    // x0.75: tier 1 -> 0.75 rounds to 1; tier 2 -> 1.5 rounds to 2; tier 3 -> 2.25 -> 2.
    s.chosen_difficulty = Difficulty::Easy;
    s.combo = 0;
    assert_eq!(s.points_for_collect(), 1);
    s.combo = 3;
    assert_eq!(s.points_for_collect(), 2);
    s.combo = 6;
    assert_eq!(s.points_for_collect(), 2);
    s.combo = 30;
    assert_eq!(s.points_for_collect(), 8);
    // x2.5: tier 1 -> 2.5 rounds to 3; tier 10 -> 25.
    s.chosen_difficulty = Difficulty::Insane;
    s.combo = 0;
    assert_eq!(s.points_for_collect(), 3);
    s.combo = 27;
    assert_eq!(s.points_for_collect(), 25);
    s.chosen_difficulty = Difficulty::Hard;
    s.combo = 3;
    assert_eq!(s.points_for_collect(), 3);
    assert_eq!(s.speed_mult(), 130);
    assert_eq!(combo_tier(0), 1);
    assert_eq!(combo_tier(5), 2);
    assert_eq!(combo_tier(1000), 10);
}

#[test]
fn collecting_stars_climbs_levels() {
    let mut s = GameStats::for_mode(GameMode::Classic, Difficulty::Normal);
    let mut ups = Vec::new();
    for _ in 0..12 {
        if let Some(l) = s.collect_star() {
            ups.push((l, s.score));
        }
    }
    // combos 1..12 -> points 1,1,2,2,2,3,3,3,4,4,4,5 -> running 1,2,4,6,8,11,14,17,21,25,29,34
    assert_eq!(s.stars_collected, 12);
    assert_eq!(s.combo, 12);
    assert_eq!(s.best_combo, 12);
    assert_eq!(s.score, 1 + 1 + 2 + 2 + 2 + 3 + 3 + 3 + 4 + 4 + 4 + 5);
    assert_eq!(ups[0], (2, 17));
    assert_eq!(ups, vec![(2, 17)]);
    assert_eq!(s.level, 2);
    assert_eq!(s.level_target, 38);
    // Combos 13, 14 earn 5 each: 39 >= 38 on the second.
    let mut next = None;
    while next.is_none() {
        next = s.collect_star();
    }
    assert_eq!(next, Some(3));
    assert!(s.score >= 38);
    assert_eq!(s.level_target, 67);
}

#[test]
fn zen_and_timed_never_level_up() {
    for mode in [GameMode::Zen, GameMode::Timed] {
        let mut s = GameStats::for_mode(mode, Difficulty::Insane);
        for _ in 0..30 {
            assert_eq!(s.collect_star(), None);
        }
        assert_eq!(s.level, 1);
        assert!(s.score > 15);
    }
}

#[test]
fn speed_powerup_lifts_combo() {
    let mut s = GameStats::for_mode(GameMode::Classic, Difficulty::Normal);
    s.collect_star();
    s.apply_speed_powerup();
    assert_eq!((s.combo, s.best_combo), (6, 6));
    s.combo = 9;
    s.best_combo = 9;
    s.apply_speed_powerup();
    assert_eq!((s.combo, s.best_combo), (9, 9));
}

#[test]
fn hazard_hits() {
    let mut s = GameStats::for_mode(GameMode::Classic, Difficulty::Normal);
    s.combo = 4;
    s.best_combo = 4;
    assert_eq!(s.apply_hazard_hit(true), HitOutcome::Shielded);
    assert_eq!((s.lives, s.combo), (3, 4));
    assert_eq!(s.apply_hazard_hit(false), HitOutcome::Hurt { fatal: false });
    assert_eq!((s.lives, s.combo, s.best_combo), (2, 0, 4));
    assert_eq!(s.apply_hazard_hit(false), HitOutcome::Hurt { fatal: false });
    assert_eq!(s.apply_hazard_hit(false), HitOutcome::Hurt { fatal: true });
    assert_eq!(s.lives, 0);
    // Already at zero: stays at zero and is still fatal.
    assert_eq!(s.apply_hazard_hit(false), HitOutcome::Hurt { fatal: true });
    assert_eq!(s.lives, 0);

    // Survival ends on the first unshielded hit.
    let mut v = GameStats::for_mode(GameMode::Survival, Difficulty::Normal);
    assert_eq!(v.apply_hazard_hit(false), HitOutcome::Hurt { fatal: true });

    // Zen ignores hazards.
    let mut z = GameStats::for_mode(GameMode::Zen, Difficulty::Normal);
    z.combo = 5;
    let before = z;
    assert_eq!(z.apply_hazard_hit(false), HitOutcome::Ignored);
    assert_eq!(z, before);
}

#[test]
fn finishing_runs_records_high_scores() {
    let mut hs = HighScores::default();
    let mut s = GameStats::for_mode(GameMode::Survival, Difficulty::Normal);
    s.score = 40;
    s.finish_run(&mut hs);
    assert!(s.is_new_record);
    assert_eq!(hs.get(GameMode::Survival), 40);
    assert_eq!(hs.get(GameMode::Classic), 0);
    let mut t = GameStats::for_mode(GameMode::Survival, Difficulty::Normal);
    t.score = 40;
    t.finish_run(&mut hs);
    assert!(!t.is_new_record);
    t.score = 39;
    t.finish_run(&mut hs);
    assert!(!t.is_new_record);
    assert_eq!(hs.get(GameMode::Survival), 40);
}

#[test]
fn hud_hearts_and_combo() {
    let mut s = GameStats::for_mode(GameMode::Classic, Difficulty::Normal);
    s.lives = 2;
    assert!(s.heart_filled(0) && s.heart_filled(1) && !s.heart_filled(2));
    let z = GameStats::for_mode(GameMode::Zen, Difficulty::Normal);
    assert!(z.heart_filled(0) && z.heart_filled(2));
    s.combo = 1;
    assert_eq!(s.combo_display(), None);
    s.combo = 2;
    assert_eq!(s.combo_display(), Some(1));
    s.combo = 40;
    assert_eq!(s.combo_display(), Some(14));
}
