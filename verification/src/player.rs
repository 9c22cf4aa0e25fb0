//! Player input decisions.

use vstd::prelude::*;

verus! {

/// Keyboard movement axis: each of x and y is -1, 0 or 1 (up is +y).
pub fn keyboard_axis(up: bool, down: bool, left: bool, right: bool) -> (r: (i32, i32))
    ensures
        r.0 == (if right { 1int } else { 0 }) - (if left { 1int } else { 0 }),
        r.1 == (if up { 1int } else { 0 }) - (if down { 1int } else { 0 }),
{
    let mut x: i32 = 0;
    let mut y: i32 = 0;
    if up {
        y = y + 1;
    }
    if down {
        y = y - 1;
    }
    if left {
        x = x - 1;
    }
    if right {
        x = x + 1;
    }
    (x, y)
}

/// Which input steers the player this frame.
#[derive(Clone, Copy, Debug, PartialEq, Eq, Structural)]
pub enum MoveSource {
    /// Keys only.
    Keyboard,
    /// A pointer is held for point-to-move: it overrides the keys, and the
    /// player stops when it has arrived.
    PointerHeld,
    /// A stick / touch direction is active: it overrides the keys.
    TouchDirection,
}

pub fn move_source(pointer_target_held: bool, touch_dir_active: bool) -> (s: MoveSource)
    ensures
        pointer_target_held ==> s == MoveSource::PointerHeld,
        !pointer_target_held && touch_dir_active ==> s == MoveSource::TouchDirection,
        !pointer_target_held && !touch_dir_active ==> s == MoveSource::Keyboard,
{
    if pointer_target_held {
        MoveSource::PointerHeld
    } else if touch_dir_active {
        MoveSource::TouchDirection
    } else {
        MoveSource::Keyboard
    }
}

/// Body / dash-trail tint from the active power-ups.
#[derive(Clone, Copy, Debug, PartialEq, Eq, Structural)]
pub enum StatusTint {
    Shield,
    Magnet,
    Speed,
    Normal,
}

/// Shield shows over magnet, magnet over speed.
pub fn status_tint(shield: bool, magnet: bool, speed: bool) -> (t: StatusTint)
    ensures
        shield ==> t == StatusTint::Shield,
        !shield && magnet ==> t == StatusTint::Magnet,
        !shield && !magnet && speed ==> t == StatusTint::Speed,
        !shield && !magnet && !speed ==> t == StatusTint::Normal,
{
    if shield {
        StatusTint::Shield
    } else if magnet {
        StatusTint::Magnet
    } else if speed {
        StatusTint::Speed
    } else {
        StatusTint::Normal
    }
}

} // verus!
