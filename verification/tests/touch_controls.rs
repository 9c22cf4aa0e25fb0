use rusty_dasher::state::GameState;
use rusty_dasher::touch_controls::{
    chrome_pointer_step, classify_menu_pointer, desktop_dash_intent, pick_move_pointer, CursorHit, DashIntent,
    MenuTap, PointerHit, StickSource, TapPoint, MOUSE_POINTER,
};

fn tap(x: u32, y: u32) -> Option<TapPoint> {
    Some(TapPoint { x_bp: x, y_bp: y })
}

#[test]
fn handheld_mode_select_bands() {
    let s = GameState::ModeSelect;
    assert_eq!(classify_menu_pointer(s, true, tap(5000, 6500), 1), MenuTap::Confirm);
    assert_eq!(classify_menu_pointer(s, true, tap(1000, 5000), 1), MenuTap::DifficultyLeft);
    assert_eq!(classify_menu_pointer(s, true, tap(5000, 5000), 1), MenuTap::DifficultyRight);
    assert_eq!(classify_menu_pointer(s, true, tap(5000, 2500), 1), MenuTap::ModeUp);
    assert_eq!(classify_menu_pointer(s, true, tap(5000, 4000), 1), MenuTap::ModeDown);
    assert_eq!(classify_menu_pointer(s, true, tap(5000, 9000), 1), MenuTap::Back);
    assert_eq!(classify_menu_pointer(s, true, tap(500, 8000), 1), MenuTap::Back);
    assert_eq!(classify_menu_pointer(s, true, tap(5000, 1000), 1), MenuTap::Nothing);
    // Outside the START band horizontally, between 0.78 and 0.82: nothing.
    assert_eq!(classify_menu_pointer(s, true, tap(5000, 8000), 1), MenuTap::Nothing);
    // Band edges.
    assert_eq!(classify_menu_pointer(s, true, tap(1800, 5800), 1), MenuTap::Confirm);
    assert_eq!(classify_menu_pointer(s, true, tap(1799, 5800), 1), MenuTap::Nothing);
    assert_eq!(classify_menu_pointer(s, true, tap(5000, 3300), 1), MenuTap::ModeDown);
    // Values past the window clamp to its edge.
    assert_eq!(classify_menu_pointer(s, true, tap(70000, 70000), 1), MenuTap::Back);
}

#[test]
fn desktop_mode_select_strips() {
    let s = GameState::ModeSelect;
    assert_eq!(classify_menu_pointer(s, false, tap(1000, 5000), 0), MenuTap::DifficultyLeft);
    assert_eq!(classify_menu_pointer(s, false, tap(9000, 5000), 0), MenuTap::DifficultyRight);
    assert_eq!(classify_menu_pointer(s, false, tap(5000, 1000), 0), MenuTap::ModeUp);
    assert_eq!(classify_menu_pointer(s, false, tap(5000, 9000), 0), MenuTap::ModeDown);
    assert_eq!(classify_menu_pointer(s, false, tap(5000, 5000), 0), MenuTap::Confirm);
}

#[test]
fn title_and_game_over_taps() {
    assert_eq!(classify_menu_pointer(GameState::Menu, true, tap(5000, 8000), 1), MenuTap::SwapControls);
    assert_eq!(classify_menu_pointer(GameState::Menu, true, tap(500, 5000), 1), MenuTap::Confirm);
    assert_eq!(classify_menu_pointer(GameState::Menu, true, tap(0, 0), 1), MenuTap::Confirm);
    assert_eq!(classify_menu_pointer(GameState::Menu, true, tap(5000, 5000), 1), MenuTap::Confirm);
    assert_eq!(classify_menu_pointer(GameState::Menu, false, tap(500, 8000), 1), MenuTap::Confirm);
    assert_eq!(classify_menu_pointer(GameState::GameOver, false, tap(500, 5000), 1), MenuTap::Confirm);
    assert_eq!(classify_menu_pointer(GameState::GameOver, true, tap(0, 9000), 1), MenuTap::Confirm);
    assert_eq!(classify_menu_pointer(GameState::GameOver, false, tap(0, 0), 1), MenuTap::Confirm);
    assert_eq!(classify_menu_pointer(GameState::GameOver, true, tap(5000, 5000), 1), MenuTap::Confirm);
}

#[test]
fn two_finger_back_without_new_tap() {
    assert_eq!(classify_menu_pointer(GameState::ModeSelect, true, None, 2), MenuTap::Back);
    assert_eq!(classify_menu_pointer(GameState::Menu, false, None, 3), MenuTap::Back);
    assert_eq!(classify_menu_pointer(GameState::Menu, false, None, 1), MenuTap::Nothing);
}

#[test]
fn desktop_dash() {
    assert_eq!(desktop_dash_intent(2, 1, false), DashIntent { dash_just: true, dash: true });
    assert_eq!(desktop_dash_intent(2, 0, false), DashIntent { dash_just: false, dash: true });
    assert_eq!(desktop_dash_intent(2, 2, false), DashIntent { dash_just: false, dash: true });
    assert_eq!(desktop_dash_intent(1, 1, false), DashIntent { dash_just: false, dash: false });
    assert_eq!(desktop_dash_intent(0, 0, true), DashIntent { dash_just: true, dash: true });
}

#[test]
fn move_pointer_prefers_held_finger() {
    assert_eq!(pick_move_pointer(&[], &[]), None);
    assert_eq!(pick_move_pointer(&[7], &[7]), Some(0));
    assert_eq!(pick_move_pointer(&[7, 8], &[7]), Some(1));
    assert_eq!(pick_move_pointer(&[7, 8, 9], &[7, 8]), Some(2));
    assert_eq!(pick_move_pointer(&[7, 8], &[]), Some(0));
    assert_eq!(pick_move_pointer(&[7, 8], &[7, 8]), Some(0));
}

fn hit(id: u64, on_dash: bool, on_stick: bool) -> PointerHit {
    PointerHit { id, on_dash, on_stick }
}

#[test]
fn chrome_stick_and_dash() {
    // A finger lands on the stick and another on dash.
    let new = [hit(1, false, true), hit(2, true, false)];
    let r = chrome_pointer_step(None, &new, &new, false, false, None, false);
    assert_eq!(r.stick_pointer, Some(1));
    assert_eq!(r.stick, StickSource::HeldTouch(0));
    assert!(r.dash_just && r.dash_held);

    // Next frame: the stick finger moved off the stick zone but still owns it.
    let held = [hit(1, false, false), hit(2, true, false)];
    let r = chrome_pointer_step(Some(1), &[], &held, false, false, None, false);
    assert_eq!(r.stick, StickSource::HeldTouch(0));
    assert!(!r.dash_just && r.dash_held);

    // Stick finger lifted: ownership is released.
    let held = [hit(2, true, false)];
    let r = chrome_pointer_step(Some(1), &[], &held, false, false, None, false);
    assert_eq!(r.stick_pointer, None);
    assert_eq!(r.stick, StickSource::Idle);
}

#[test]
fn chrome_mouse() {
    let c = Some(CursorHit { on_dash: false, on_stick: true });
    let r = chrome_pointer_step(None, &[], &[], true, true, c, false);
    assert_eq!(r.stick_pointer, Some(MOUSE_POINTER));
    assert_eq!(r.stick, StickSource::Mouse);
    // The mouse owner is dropped with the touches at the start of each
    // frame (no touch carries its id), so a held button without a fresh
    // press does not steer.
    let r = chrome_pointer_step(Some(MOUSE_POINTER), &[], &[], true, false, Some(CursorHit { on_dash: false, on_stick: false }), false);
    assert_eq!(r.stick, StickSource::Idle);
    assert_eq!(r.stick_pointer, None);
    // Released: gives the stick up.
    let r = chrome_pointer_step(Some(MOUSE_POINTER), &[], &[], false, false, None, false);
    assert_eq!(r.stick_pointer, None);
    // Mouse on dash.
    let r = chrome_pointer_step(None, &[], &[], true, true, Some(CursorHit { on_dash: true, on_stick: false }), false);
    assert!(r.dash_just && r.dash_held);
    // Right click dashes.
    let r = chrome_pointer_step(None, &[], &[], false, false, None, true);
    assert!(r.dash_just && !r.dash_held);
    // A finger that owns the stick blocks the mouse.
    let held = [hit(4, false, true)];
    let r = chrome_pointer_step(Some(4), &[], &held, true, true, c, false);
    assert_eq!(r.stick_pointer, Some(4));
    assert_eq!(r.stick, StickSource::HeldTouch(0));
}
