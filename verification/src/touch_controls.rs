//! Touch / pointer decisions for browser and handheld play.
//!
//! Menus: a tap picks an action by where it lands on the window (ratios
//! given in basis points, 0..=10000, rounded down). Desktop play: a second
//! finger or a right click dashes; the held finger steers. Handheld play:
//! a virtual stick and a dash button, tracked per pointer id.

use vstd::prelude::*;
use crate::state::GameState;

verus! {

/// Menu action requested by a tap.
#[derive(Clone, Copy, Debug, PartialEq, Eq, Structural)]
pub enum MenuTap {
    Nothing,
    Confirm,
    Back,
    ModeUp,
    ModeDown,
    DifficultyLeft,
    DifficultyRight,
    SwapControls,
}

/// Where a tap landed, as fractions of the window size in basis points
/// (10000 = full width / height; larger values count as 10000).
#[derive(Clone, Copy, Debug, PartialEq, Eq, Structural)]
pub struct TapPoint {
    pub x_bp: u32,
    pub y_bp: u32,
}

pub open spec fn clamp_bp(v: int) -> int {
    if v <= 10000 { v } else { 10000 }
}

/// Action of a tap at `(x, y)` (basis points, already clamped).
pub open spec fn menu_tap_at(state: GameState, handheld: bool, x: int, y: int) -> MenuTap {
    match state {
        GameState::ModeSelect => if handheld {
            if 5800 <= y <= 7800 && 1800 <= x <= 8200 {
                MenuTap::Confirm
            } else if 4600 <= y < 5800 {
                if x < 5000 { MenuTap::DifficultyLeft } else { MenuTap::DifficultyRight }
            } else if 2000 <= y < 4600 {
                if y < 3300 { MenuTap::ModeUp } else { MenuTap::ModeDown }
            } else if y > 8200 || (x < 800 && y > 5000) {
                MenuTap::Back
            } else {
                MenuTap::Nothing
            }
        } else {
            if x < 2000 {
                MenuTap::DifficultyLeft
            } else if x > 8000 {
                MenuTap::DifficultyRight
            } else if y < 2800 {
                MenuTap::ModeUp
            } else if y > 7200 {
                MenuTap::ModeDown
            } else {
                MenuTap::Confirm
            }
        },
        GameState::Menu => if handheld {
            if 7200 <= y <= 9200 && 1200 <= x <= 8800 {
                MenuTap::SwapControls
            } else {
                MenuTap::Confirm
            }
        } else {
            MenuTap::Confirm
        },
        GameState::GameOver => MenuTap::Confirm,
        GameState::Playing => MenuTap::Nothing,
    }
}

/// Pointer input on a menu screen: the first new tap (touch, or a click)
/// picks an action by position; with no new tap, two or more fingers
/// held mean "back".
pub open spec fn menu_pointer(state: GameState, handheld: bool, tap: Option<TapPoint>, touch_count: int) -> MenuTap {
    match tap {
        None => if touch_count >= 2 { MenuTap::Back } else { MenuTap::Nothing },
        Some(p) => menu_tap_at(state, handheld, clamp_bp(p.x_bp as int), clamp_bp(p.y_bp as int)),
    }
}

/// The handheld mode-select layout: the START band confirms; in the
/// difficulty row the left half is easier and the right half harder; in
/// the mode list the upper part is the previous mode and the lower part
/// the next one; and with no new tap two fingers go back, on every menu.
pub proof fn law_handheld_mode_select_layout(x: int, y: int, touch_count: int)
    requires
        0 <= x <= 10000,
        0 <= y <= 10000,
    ensures
        (5800 <= y <= 7800 && 1800 <= x <= 8200) ==> menu_tap_at(GameState::ModeSelect, true, x, y) == MenuTap::Confirm,
        (4600 <= y < 5800) ==> menu_tap_at(GameState::ModeSelect, true, x, y)
            == (if x < 5000 { MenuTap::DifficultyLeft } else { MenuTap::DifficultyRight }),
        (2000 <= y < 3300) ==> menu_tap_at(GameState::ModeSelect, true, x, y) == MenuTap::ModeUp,
        (3300 <= y < 4600) ==> menu_tap_at(GameState::ModeSelect, true, x, y) == MenuTap::ModeDown,
        touch_count >= 2 ==> forall|s: GameState, h: bool| menu_pointer(s, h, None, touch_count) == MenuTap::Back,
{
}

/// On the title and game-over screens a tap confirms, wherever it lands,
/// except in the swap-controls band of the handheld title screen, which
/// swaps the stick and dash sides.
pub proof fn law_menu_taps_confirm(handheld: bool, x: int, y: int)
    ensures
        menu_tap_at(GameState::GameOver, handheld, x, y) == MenuTap::Confirm,
        menu_tap_at(GameState::Menu, handheld, x, y) == (if handheld && 7200 <= y <= 9200 && 1200 <= x <= 8800 {
            MenuTap::SwapControls
        } else {
            MenuTap::Confirm
        }),
{
}

/// Desktop mode select: the left fifth of the window is "easier" and the
/// right fifth "harder" over the full height; between them the top band
/// moves up the mode list, the bottom band down, and the middle confirms.
pub proof fn law_desktop_mode_select_strips(p: TapPoint, touch_count: int)
    ensures
        p.x_bp < 2000 ==> menu_pointer(GameState::ModeSelect, false, Some(p), touch_count) == MenuTap::DifficultyLeft,
        p.x_bp > 8000 ==> menu_pointer(GameState::ModeSelect, false, Some(p), touch_count) == MenuTap::DifficultyRight,
        2000 <= p.x_bp <= 8000 && p.y_bp < 2800
            ==> menu_pointer(GameState::ModeSelect, false, Some(p), touch_count) == MenuTap::ModeUp,
        2000 <= p.x_bp <= 8000 && p.y_bp > 7200
            ==> menu_pointer(GameState::ModeSelect, false, Some(p), touch_count) == MenuTap::ModeDown,
        2000 <= p.x_bp <= 8000 && 2800 <= p.y_bp <= 7200
            ==> menu_pointer(GameState::ModeSelect, false, Some(p), touch_count) == MenuTap::Confirm,
{
}

/// Menu action for this frame's pointer input on `state`.
pub fn classify_menu_pointer(state: GameState, handheld: bool, tap: Option<TapPoint>, touch_count: usize) -> (t: MenuTap)
    ensures
        t == menu_pointer(state, handheld, tap, touch_count as int),
        state == GameState::ModeSelect && !handheld ==> (tap matches Some(p) ==> {
            &&& p.x_bp < 2000 ==> t == MenuTap::DifficultyLeft
            &&& p.x_bp > 8000 ==> t == MenuTap::DifficultyRight
            &&& 2000 <= p.x_bp <= 8000 ==> t == (if p.y_bp < 2800 {
                MenuTap::ModeUp
            } else if p.y_bp > 7200 {
                MenuTap::ModeDown
            } else {
                MenuTap::Confirm
            })
        }),
{
    let p = match tap {
        None => {
            return if touch_count >= 2 { MenuTap::Back } else { MenuTap::Nothing };
        },
        Some(p) => p,
    };
    let x: u32 = if p.x_bp <= 10000 { p.x_bp } else { 10000 };
    let y: u32 = if p.y_bp <= 10000 { p.y_bp } else { 10000 };
    match state {
        GameState::ModeSelect => {
            if handheld {
                if y >= 5800 && y <= 7800 && x >= 1800 && x <= 8200 {
                    MenuTap::Confirm
                } else if y >= 4600 && y < 5800 {
                    if x < 5000 { MenuTap::DifficultyLeft } else { MenuTap::DifficultyRight }
                } else if y >= 2000 && y < 4600 {
                    if y < 3300 { MenuTap::ModeUp } else { MenuTap::ModeDown }
                } else if y > 8200 || (x < 800 && y > 5000) {
                    MenuTap::Back
                } else {
                    MenuTap::Nothing
                }
            } else if x < 2000 {
                MenuTap::DifficultyLeft
            } else if x > 8000 {
                MenuTap::DifficultyRight
            } else if y < 2800 {
                MenuTap::ModeUp
            } else if y > 7200 {
                MenuTap::ModeDown
            } else {
                MenuTap::Confirm
            }
        },
        GameState::Menu => {
            if handheld {
                if y >= 7200 && y <= 9200 && x >= 1200 && x <= 8800 {
                    MenuTap::SwapControls
                } else {
                    MenuTap::Confirm
                }
            } else {
                MenuTap::Confirm
            }
        },
        GameState::GameOver => MenuTap::Confirm,
        GameState::Playing => MenuTap::Nothing,
    }
}

/// Dash request from desktop touches and the mouse.
#[derive(Clone, Copy, Debug, PartialEq, Eq, Structural)]
pub struct DashIntent {
    /// A dash starts this frame.
    pub dash_just: bool,
    /// The dash input is held.
    pub dash: bool,
}

/// Desktop dash input: a new finger landing while another is held starts
/// a dash; two or more fingers keep it held; a right click starts one.
pub fn desktop_dash_intent(touch_count: usize, just_count: usize, mouse_right_just: bool) -> (d: DashIntent)
    ensures
        d.dash_just == ((touch_count > just_count && just_count > 0) || mouse_right_just),
        d.dash == ((touch_count > just_count && just_count > 0) || touch_count >= 2 || mouse_right_just),
{
    let held_prior = touch_count.saturating_sub(just_count);
    let mut d = DashIntent { dash_just: false, dash: false };
    if held_prior >= 1 && just_count > 0 {
        d.dash_just = true;
        d.dash = true;
    } else if touch_count >= 2 {
        d.dash = true;
    }
    if mouse_right_just {
        d.dash_just = true;
        d.dash = true;
    }
    d
}

/// Touch that steers point-to-move: with two or more fingers and a new
/// one landing, the leftmost held finger that is not new; otherwise the
/// first touch. Returns its index in `active_ids`.
pub open spec fn has_held_finger(active_ids: Seq<u64>, just_ids: Seq<u64>) -> bool {
    &&& active_ids.len() >= 2
    &&& just_ids.len() > 0
    &&& exists|k: int| 0 <= k < active_ids.len() && !just_ids.contains(active_ids[k])
}

pub fn pick_move_pointer(active_ids: &[u64], just_ids: &[u64]) -> (r: Option<usize>)
    ensures
        r is None <==> active_ids@.len() == 0,
        r matches Some(i) ==> {
            &&& i < active_ids@.len()
            &&& has_held_finger(active_ids@, just_ids@) ==> {
                &&& !just_ids@.contains(active_ids@[i as int])
                &&& forall|k: int| 0 <= k < i ==> just_ids@.contains(active_ids@[k])
            }
            &&& !has_held_finger(active_ids@, just_ids@) ==> i == 0
        },
{
    if active_ids.len() == 0 {
        return None;
    }
    if active_ids.len() >= 2 && just_ids.len() > 0 {
        let mut i: usize = 0;
        while i < active_ids.len()
            invariant
                i <= active_ids@.len(),
                active_ids@.len() >= 2,
                just_ids@.len() > 0,
                forall|k: int| 0 <= k < i ==> just_ids@.contains(active_ids@[k]),
            decreases active_ids@.len() - i,
        {
            let id = active_ids[i];
            let mut j: usize = 0;
            let mut found = false;
            while j < just_ids.len()
                invariant
                    j <= just_ids@.len(),
                    i < active_ids@.len(),
                    id == active_ids@[i as int],
                    found == exists|q: int| 0 <= q < j && just_ids@[q] == id,
                decreases just_ids@.len() - j,
            {
                if just_ids[j] == id {
                    found = true;
                }
                j = j + 1;
            }
            if !found {
                assert(!just_ids@.contains(id));
                return Some(i);
            }
            assert(just_ids@.contains(id));
            i = i + 1;
        }
        assert(!has_held_finger(active_ids@, just_ids@));
    }
    Some(0)
}

/// Pointer id used for the mouse when it drives the virtual stick.
pub const MOUSE_POINTER: u64 = 0xFFFF_FFFF_FFFF_FFFF;

/// A touch on the handheld control deck, with what it is over.
#[derive(Clone, Copy, Debug, PartialEq, Eq, Structural)]
pub struct PointerHit {
    pub id: u64,
    /// Inside the dash button's hit circle.
    pub on_dash: bool,
    /// Inside the stick's hit circle or the stick half of the deck.
    pub on_stick: bool,
}

/// What the mouse cursor is over.
#[derive(Clone, Copy, Debug, PartialEq, Eq, Structural)]
pub struct CursorHit {
    pub on_dash: bool,
    pub on_stick: bool,
}

/// Pointer whose position steers the virtual stick this frame.
#[derive(Clone, Copy, Debug, PartialEq, Eq, Structural)]
pub enum StickSource {
    /// No pointer: the knob recentres.
    Idle,
    /// Touch `i` of this frame's new touches.
    NewTouch(usize),
    /// Touch `i` of this frame's held touches.
    HeldTouch(usize),
    Mouse,
}

/// Stick / dash state while tracking handheld pointers.
#[derive(Clone, Copy, Debug, PartialEq, Eq, Structural)]
pub struct ChromeStep {
    /// Pointer that owns the stick (carried to the next frame).
    pub stick_pointer: Option<u64>,
    pub stick: StickSource,
    pub dash_just: bool,
    pub dash_held: bool,
}

/// The stick owner survives only while its pointer is still down.
pub open spec fn stick_owner_after_release(sp: Option<u64>, active: Seq<PointerHit>) -> Option<u64> {
    match sp {
        Some(id) => if exists|k: int| 0 <= k < active.len() && active[k].id == id { sp } else { None },
        None => None,
    }
}

/// A new touch: on the dash button it presses dash; on the stick it takes
/// the stick.
pub open spec fn new_touch_step(a: ChromeStep, i: int, t: PointerHit) -> ChromeStep {
    if t.on_dash {
        ChromeStep { stick_pointer: a.stick_pointer, stick: a.stick, dash_just: true, dash_held: true }
    } else if t.on_stick {
        ChromeStep { stick_pointer: Some(t.id), stick: StickSource::NewTouch(i as usize), dash_just: a.dash_just, dash_held: a.dash_held }
    } else {
        a
    }
}

/// A held touch: the stick owner steers; another touch on the dash button
/// holds dash; with no owner, a touch on the stick takes it.
pub open spec fn held_touch_step(a: ChromeStep, i: int, t: PointerHit) -> ChromeStep {
    if a.stick_pointer == Some(t.id) {
        ChromeStep { stick_pointer: a.stick_pointer, stick: StickSource::HeldTouch(i as usize), dash_just: a.dash_just, dash_held: a.dash_held }
    } else if t.on_dash {
        ChromeStep { stick_pointer: a.stick_pointer, stick: a.stick, dash_just: a.dash_just, dash_held: true }
    } else if a.stick_pointer is None && t.on_stick {
        ChromeStep { stick_pointer: Some(t.id), stick: StickSource::HeldTouch(i as usize), dash_just: a.dash_just, dash_held: a.dash_held }
    } else {
        a
    }
}

pub open spec fn fold_new_touches(a: ChromeStep, ts: Seq<PointerHit>, n: int) -> ChromeStep
    decreases n,
{
    if n <= 0 { a } else { new_touch_step(fold_new_touches(a, ts, n - 1), n - 1, ts[n - 1]) }
}

pub open spec fn fold_held_touches(a: ChromeStep, ts: Seq<PointerHit>, n: int) -> ChromeStep
    decreases n,
{
    if n <= 0 { a } else { held_touch_step(fold_held_touches(a, ts, n - 1), n - 1, ts[n - 1]) }
}

/// The mouse: a left press on the stick takes it (unless a finger owns
/// it) and it steers while held; released, it gives the stick up. Over
/// the dash button a held button holds dash and a fresh press starts one.
pub open spec fn mouse_step(a: ChromeStep, mouse_down: bool, mouse_just: bool, cursor: Option<CursorHit>) -> ChromeStep {
    if mouse_down {
        match cursor {
            None => a,
            Some(c) => {
                let free = a.stick_pointer is None || a.stick_pointer == Some(MOUSE_POINTER);
                let sp = if free && mouse_just && c.on_stick { Some(MOUSE_POINTER) } else { a.stick_pointer };
                let stick = if free && sp == Some(MOUSE_POINTER) { StickSource::Mouse } else { a.stick };
                ChromeStep {
                    stick_pointer: sp,
                    stick,
                    dash_just: a.dash_just || (c.on_dash && mouse_just),
                    dash_held: a.dash_held || c.on_dash,
                }
            },
        }
    } else if a.stick_pointer == Some(MOUSE_POINTER) {
        ChromeStep { stick_pointer: None, stick: a.stick, dash_just: a.dash_just, dash_held: a.dash_held }
    } else {
        a
    }
}

/// The whole frame: release, new touches in order, held touches in order,
/// then the mouse; a right click also starts a dash.
pub open spec fn chrome_frame(
    sp: Option<u64>,
    new_touches: Seq<PointerHit>,
    held: Seq<PointerHit>,
    mouse_down: bool,
    mouse_just: bool,
    cursor: Option<CursorHit>,
    mouse_right_just: bool,
) -> ChromeStep {
    let a0 = ChromeStep { stick_pointer: stick_owner_after_release(sp, held), stick: StickSource::Idle, dash_just: false, dash_held: false };
    let a1 = fold_new_touches(a0, new_touches, new_touches.len() as int);
    let a2 = fold_held_touches(a1, held, held.len() as int);
    let a3 = mouse_step(a2, mouse_down, mouse_just, cursor);
    ChromeStep { stick_pointer: a3.stick_pointer, stick: a3.stick, dash_just: a3.dash_just || mouse_right_just, dash_held: a3.dash_held }
}

/// Some pointer other than the mouse owns the stick, and it steers.
spec fn finger_steers(a: ChromeStep) -> bool {
    &&& a.stick_pointer is Some
    &&& a.stick_pointer->0 != MOUSE_POINTER
    &&& a.stick != StickSource::Idle
}

proof fn lemma_new_touches_take_stick(a: ChromeStep, ts: Seq<PointerHit>, n: int)
    requires
        0 <= n <= ts.len(),
        forall|k: int| 0 <= k < ts.len() ==> ts[k].id != MOUSE_POINTER,
    ensures
        ({
            let r = fold_new_touches(a, ts, n);
            &&& (r.stick_pointer == a.stick_pointer && r.stick == a.stick) || finger_steers(r)
            &&& (exists|k: int| 0 <= k < n && ts[k].on_stick && !ts[k].on_dash) ==> finger_steers(r)
            &&& (forall|k: int| 0 <= k < n ==> ts[k].on_dash || !ts[k].on_stick)
                ==> r.stick_pointer == a.stick_pointer && r.stick == a.stick
        }),
    decreases n,
{
    if n > 0 {
        lemma_new_touches_take_stick(a, ts, n - 1);
        if exists|k: int| 0 <= k < n && ts[k].on_stick && !ts[k].on_dash {
            let k = choose|k: int| 0 <= k < n && ts[k].on_stick && !ts[k].on_dash;
            if k < n - 1 {
                assert(exists|k: int| 0 <= k < n - 1 && ts[k].on_stick && !ts[k].on_dash);
            }
        }
    }
}

proof fn lemma_held_touches_keep_or_take_stick(a: ChromeStep, ts: Seq<PointerHit>, n: int)
    requires
        0 <= n <= ts.len(),
        forall|k: int| 0 <= k < ts.len() ==> ts[k].id != MOUSE_POINTER,
    ensures
        ({
            let r = fold_held_touches(a, ts, n);
            &&& finger_steers(a) ==> finger_steers(r)
            &&& a.stick_pointer is None ==> (r.stick_pointer is None || finger_steers(r))
            &&& a.stick_pointer is None && (exists|k: int| 0 <= k < n && ts[k].on_stick && !ts[k].on_dash)
                ==> finger_steers(r)
        }),
    decreases n,
{
    if n > 0 {
        lemma_held_touches_keep_or_take_stick(a, ts, n - 1);
        if exists|k: int| 0 <= k < n && ts[k].on_stick && !ts[k].on_dash {
            let k = choose|k: int| 0 <= k < n && ts[k].on_stick && !ts[k].on_dash;
            if k < n - 1 {
                assert(exists|k: int| 0 <= k < n - 1 && ts[k].on_stick && !ts[k].on_dash);
            }
        }
    }
}

proof fn lemma_first_held_on_stick_takes_it(a: ChromeStep, ts: Seq<PointerHit>, n: int, i: int)
    requires
        0 <= n <= ts.len(),
        0 <= i < ts.len(),
        a.stick_pointer is None,
        ts[i].on_stick && !ts[i].on_dash,
        forall|j: int| 0 <= j < i ==> !(ts[j].on_stick && !ts[j].on_dash),
        forall|j: int| i < j < ts.len() ==> ts[j].id != ts[i].id,
    ensures
        n <= i ==> fold_held_touches(a, ts, n).stick_pointer is None
            && fold_held_touches(a, ts, n).stick == a.stick,
        n > i ==> fold_held_touches(a, ts, n).stick_pointer == Some(ts[i].id)
            && fold_held_touches(a, ts, n).stick == StickSource::HeldTouch(i as usize),
    decreases n,
{
    if n > 0 {
        lemma_first_held_on_stick_takes_it(a, ts, n - 1, i);
    }
}

/// A finger kept down on the stick takes it when nothing owns it: if no
/// stick owner survives the release step (the old owner is absent from
/// the held touches) and some held touch is on the stick and not on the
/// dash button, then after the frame a finger owns the stick and steers.
/// In particular, with no new touch on the stick, the first such held
/// touch `i` owns it and steers. (Touch ids other than the mouse's
/// reserved id; a pointer id appears once among the held touches.)
pub proof fn law_held_finger_takes_free_stick(
    sp: Option<u64>,
    new_touches: Seq<PointerHit>,
    held: Seq<PointerHit>,
    mouse_down: bool,
    mouse_just: bool,
    cursor: Option<CursorHit>,
    mouse_right_just: bool,
    i: int,
)
    requires
        sp is None || (forall|k: int| 0 <= k < held.len() ==> held[k].id != sp->0),
        forall|k: int| 0 <= k < new_touches.len() ==> new_touches[k].id != MOUSE_POINTER,
        forall|k: int| 0 <= k < held.len() ==> held[k].id != MOUSE_POINTER,
        0 <= i < held.len(),
        held[i].on_stick && !held[i].on_dash,
    ensures
        ({
            let r = chrome_frame(sp, new_touches, held, mouse_down, mouse_just, cursor, mouse_right_just);
            &&& r.stick_pointer is Some
            &&& r.stick != StickSource::Idle
            &&& (forall|k: int| 0 <= k < new_touches.len() ==> new_touches[k].on_dash || !new_touches[k].on_stick)
                && (forall|j: int| 0 <= j < i ==> !(held[j].on_stick && !held[j].on_dash))
                && (forall|j: int| i < j < held.len() ==> held[j].id != held[i].id)
                ==> r.stick_pointer == Some(held[i].id) && r.stick == StickSource::HeldTouch(i as usize)
        }),
{
    let a0 = ChromeStep { stick_pointer: stick_owner_after_release(sp, held), stick: StickSource::Idle, dash_just: false, dash_held: false };
    assert(a0.stick_pointer is None);
    let a1 = fold_new_touches(a0, new_touches, new_touches.len() as int);
    let a2 = fold_held_touches(a1, held, held.len() as int);
    lemma_new_touches_take_stick(a0, new_touches, new_touches.len() as int);
    lemma_held_touches_keep_or_take_stick(a1, held, held.len() as int);
    assert(exists|k: int| 0 <= k < held.len() && held[k].on_stick && !held[k].on_dash);
    assert(finger_steers(a2));
    if (forall|k: int| 0 <= k < new_touches.len() ==> new_touches[k].on_dash || !new_touches[k].on_stick)
        && (forall|j: int| 0 <= j < i ==> !(held[j].on_stick && !held[j].on_dash))
        && (forall|j: int| i < j < held.len() ==> held[j].id != held[i].id) {
        lemma_first_held_on_stick_takes_it(a1, held, held.len() as int, i);
    }
}

/// Stick and dash tracking for one frame of handheld play. `held` are all
/// touches currently down (new ones included), `new_touches` the ones that
/// landed this frame.
pub fn chrome_pointer_step(
    stick_pointer: Option<u64>,
    new_touches: &[PointerHit],
    held: &[PointerHit],
    mouse_down: bool,
    mouse_just: bool,
    cursor: Option<CursorHit>,
    mouse_right_just: bool,
) -> (r: ChromeStep)
    ensures
        r == chrome_frame(stick_pointer, new_touches@, held@, mouse_down, mouse_just, cursor, mouse_right_just),
        r.dash_just == ((exists|k: int| 0 <= k < new_touches@.len() && new_touches@[k].on_dash)
            || (mouse_down && mouse_just && (cursor matches Some(c) && c.on_dash))
            || mouse_right_just),
        r.stick matches StickSource::NewTouch(i) ==> i < new_touches@.len()
            && (new_touches@[i as int].id != MOUSE_POINTER ==> r.stick_pointer == Some(new_touches@[i as int].id)),
        r.stick matches StickSource::HeldTouch(i) ==> i < held@.len()
            && (held@[i as int].id != MOUSE_POINTER ==> r.stick_pointer == Some(held@[i as int].id)),
        r.stick matches StickSource::Mouse ==> r.stick_pointer == Some(MOUSE_POINTER),
        (stick_pointer is None || (forall|k: int| 0 <= k < held@.len() ==> held@[k].id != stick_pointer->0))
            && (forall|k: int| 0 <= k < new_touches@.len() ==> new_touches@[k].id != MOUSE_POINTER)
            && (forall|k: int| 0 <= k < held@.len() ==> held@[k].id != MOUSE_POINTER)
            ==> {
            &&& (exists|i: int| 0 <= i < held@.len() && held@[i].on_stick && !held@[i].on_dash)
                ==> r.stick_pointer is Some && r.stick != StickSource::Idle
            &&& forall|i: int|
                #![trigger held@[i]]
                0 <= i < held@.len() && held@[i].on_stick && !held@[i].on_dash
                && (forall|k: int| 0 <= k < new_touches@.len() ==> new_touches@[k].on_dash || !new_touches@[k].on_stick)
                && (forall|j: int| 0 <= j < i ==> !(held@[j].on_stick && !held@[j].on_dash))
                && (forall|j: int| i < j < held@.len() ==> held@[j].id != held@[i].id)
                ==> r.stick_pointer == Some(held@[i].id) && r.stick == StickSource::HeldTouch(i as usize)
        },
{
    let mut sp = stick_pointer;
    if let Some(id) = stick_pointer {
        let mut k: usize = 0;
        let mut alive = false;
        while k < held.len()
            invariant
                k <= held@.len(),
                alive == exists|q: int| 0 <= q < k && held@[q].id == id,
            decreases held@.len() - k,
        {
            if held[k].id == id {
                alive = true;
            }
            k = k + 1;
        }
        if !alive {
            sp = None;
        }
    }
    let mut a = ChromeStep { stick_pointer: sp, stick: StickSource::Idle, dash_just: false, dash_held: false };
    let ghost a0 = a;
    assert(a0.stick_pointer == stick_owner_after_release(stick_pointer, held@));

    let mut i: usize = 0;
    while i < new_touches.len()
        invariant
            i <= new_touches@.len(),
            a == fold_new_touches(a0, new_touches@, i as int),
            a0.dash_just == false,
            a.dash_just == exists|k: int| 0 <= k < i && new_touches@[k].on_dash,
            a.stick matches StickSource::NewTouch(j) ==> j < i && a.stick_pointer == Some(new_touches@[j as int].id),
            a0.stick == StickSource::Idle,
            !(a.stick is HeldTouch) && !(a.stick is Mouse),
        decreases new_touches@.len() - i,
    {
        let t = new_touches[i];
        if t.on_dash {
            a.dash_just = true;
            a.dash_held = true;
        } else if t.on_stick {
            a.stick_pointer = Some(t.id);
            a.stick = StickSource::NewTouch(i);
        }
        i = i + 1;
    }
    let ghost a1 = a;

    let mut i: usize = 0;
    while i < held.len()
        invariant
            i <= held@.len(),
            a == fold_held_touches(a1, held@, i as int),
            a.dash_just == a1.dash_just,
            a1.stick matches StickSource::NewTouch(j) ==> j < new_touches@.len() && a1.stick_pointer == Some(new_touches@[j as int].id),
            a.stick matches StickSource::NewTouch(j) ==> a.stick == a1.stick && a.stick_pointer == a1.stick_pointer,
            a.stick matches StickSource::HeldTouch(j) ==> j < i && a.stick_pointer == Some(held@[j as int].id),
            !(a.stick is Mouse),
        decreases held@.len() - i,
    {
        let t = held[i];
        if a.stick_pointer == Some(t.id) {
            a.stick = StickSource::HeldTouch(i);
        } else if t.on_dash {
            a.dash_held = true;
        } else if a.stick_pointer.is_none() && t.on_stick {
            a.stick_pointer = Some(t.id);
            a.stick = StickSource::HeldTouch(i);
        }
        i = i + 1;
    }

    if mouse_down {
        if let Some(c) = cursor {
            let free = a.stick_pointer.is_none() || a.stick_pointer == Some(MOUSE_POINTER);
            if free {
                if mouse_just && c.on_stick {
                    a.stick_pointer = Some(MOUSE_POINTER);
                }
                if a.stick_pointer == Some(MOUSE_POINTER) {
                    a.stick = StickSource::Mouse;
                }
            }
            if c.on_dash {
                a.dash_held = true;
                if mouse_just {
                    a.dash_just = true;
                }
            }
        }
    } else if a.stick_pointer == Some(MOUSE_POINTER) {
        a.stick_pointer = None;
    }
    if mouse_right_just {
        a.dash_just = true;
    }
    proof {
        if (stick_pointer is None || (forall|k: int| 0 <= k < held@.len() ==> held@[k].id != stick_pointer->0))
            && (forall|k: int| 0 <= k < new_touches@.len() ==> new_touches@[k].id != MOUSE_POINTER)
            && (forall|k: int| 0 <= k < held@.len() ==> held@[k].id != MOUSE_POINTER) {
            if exists|i: int| 0 <= i < held@.len() && held@[i].on_stick && !held@[i].on_dash {
                let i = choose|i: int| 0 <= i < held@.len() && held@[i].on_stick && !held@[i].on_dash;
                law_held_finger_takes_free_stick(stick_pointer, new_touches@, held@, mouse_down, mouse_just,
                    cursor, mouse_right_just, i);
            }
            assert forall|i: int|
                #![trigger held@[i]]
                0 <= i < held@.len() && held@[i].on_stick && !held@[i].on_dash
                && (forall|k: int| 0 <= k < new_touches@.len() ==> new_touches@[k].on_dash || !new_touches@[k].on_stick)
                && (forall|j: int| 0 <= j < i ==> !(held@[j].on_stick && !held@[j].on_dash))
                && (forall|j: int| i < j < held@.len() ==> held@[j].id != held@[i].id)
                implies a.stick_pointer == Some(held@[i].id) && a.stick == StickSource::HeldTouch(i as usize) by {
                law_held_finger_takes_free_stick(stick_pointer, new_touches@, held@, mouse_down, mouse_just,
                    cursor, mouse_right_just, i);
            }
        }
    }
    a
}

} // verus!
