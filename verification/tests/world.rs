use rusty_dasher::player::{keyboard_axis, move_source, status_tint, MoveSource, StatusTint};
use rusty_dasher::state::GameMode;
use rusty_dasher::ui_scale::ViewportClass;
use rusty_dasher::viewport::{chrome_active, play_bounds_due, resolution_resync_due, FieldPiece};
use rusty_dasher::world::{hazard_cap, hazard_side_from_roll, star_cap, starter_star_count, HazardSide, PowerupKind};

#[test]
fn spawn_rules() {
    assert_eq!(starter_star_count(GameMode::Zen), 6);
    assert_eq!(starter_star_count(GameMode::Survival), 4);
    assert_eq!(star_cap(GameMode::Zen, 0), 14);
    assert_eq!(star_cap(GameMode::Classic, 2), 8);
    assert_eq!(star_cap(GameMode::Classic, 9), 14);
    assert_eq!(hazard_cap(1), 6);
    assert_eq!(hazard_cap(4), 12);
    assert_eq!(hazard_cap(7), 16);
    assert_eq!(PowerupKind::from_roll(0), PowerupKind::Magnet);
    assert_eq!(PowerupKind::from_roll(1), PowerupKind::Shield);
    assert_eq!(PowerupKind::from_roll(2), PowerupKind::Speed);
    assert_eq!(PowerupKind::from_roll(-3), PowerupKind::Speed);
    assert_eq!(PowerupKind::Magnet.sides(), 6);
    assert_eq!(PowerupKind::Shield.sides(), 8);
    assert_eq!(PowerupKind::Speed.sides(), 4);
    assert_eq!(hazard_side_from_roll(0), HazardSide::Left);
    assert_eq!(hazard_side_from_roll(1), HazardSide::Right);
    assert_eq!(hazard_side_from_roll(2), HazardSide::Bottom);
    assert_eq!(hazard_side_from_roll(3), HazardSide::Top);
}

#[test]
fn layout_refresh_rules() {
    assert!(resolution_resync_due(1, false));
    assert!(resolution_resync_due(20, false));
    assert!(!resolution_resync_due(21, false));
    assert!(!resolution_resync_due(200, false));
    assert!(resolution_resync_due(200, true));
    let d = ViewportClass::Desktop1080;
    assert!(!play_bounds_due(7, false, false, false, false, d, d));
    assert!(play_bounds_due(30, false, false, false, false, d, d));
    assert!(play_bounds_due(7, false, false, true, false, d, d));
    assert!(play_bounds_due(7, false, false, false, false, ViewportClass::PhonePortrait, d));
    assert!(play_bounds_due(7, false, true, false, false, d, d));
    assert!(chrome_active(true, ViewportClass::TabletPortrait));
    assert!(!chrome_active(false, ViewportClass::TabletPortrait));
    assert!(!chrome_active(true, ViewportClass::Desktop4k));
    assert!(FieldPiece::Backdrop.shown(false));
    assert!(!FieldPiece::Glow.shown(false));
    assert!(FieldPiece::InnerField.shown(true));
}

#[test]
fn player_input_rules() {
    assert_eq!(keyboard_axis(true, false, false, true), (1, 1));
    assert_eq!(keyboard_axis(true, true, true, true), (0, 0));
    assert_eq!(keyboard_axis(false, true, true, false), (-1, -1));
    assert_eq!(move_source(true, true), MoveSource::PointerHeld);
    assert_eq!(move_source(false, true), MoveSource::TouchDirection);
    assert_eq!(move_source(false, false), MoveSource::Keyboard);
    assert_eq!(status_tint(true, true, true), StatusTint::Shield);
    assert_eq!(status_tint(false, true, true), StatusTint::Magnet);
    assert_eq!(status_tint(false, false, true), StatusTint::Speed);
    assert_eq!(status_tint(false, false, false), StatusTint::Normal);
}
