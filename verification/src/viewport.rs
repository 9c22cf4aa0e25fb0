//! When the window-dependent layout is recomputed, and which playfield
//! pieces are visible.

use vstd::prelude::*;
use crate::ui_scale::ViewportClass;

verus! {

/// Playfield decoration pieces.
#[derive(Clone, Copy, Debug, PartialEq, Eq, Structural)]
pub enum FieldPiece {
    Backdrop,
    OuterBorder,
    InnerField,
    Glow,
}

impl FieldPiece {
    /// The backdrop always shows; the border, field and glow only during
    /// play, so empty rectangles do not ghost through the menus.
    pub fn shown(self, playing: bool) -> (b: bool)
        ensures
            b == (self == FieldPiece::Backdrop || playing),
    {
        match self {
            FieldPiece::Backdrop => true,
            FieldPiece::OuterBorder | FieldPiece::InnerField | FieldPiece::Glow => playing,
        }
    }
}

/// The canvas resolution is re-synced on a resize, and during the first
/// 180 frames on frame 1 and every 20th frame (the page settles after boot).
pub fn resolution_resync_due(frame: u32, resized: bool) -> (b: bool)
    ensures
        b == (resized || (frame <= 180 && (frame == 1 || frame % 20 == 0))),
{
    resized || (frame <= 180 && (frame == 1 || frame % 20 == 0))
}

/// Play bounds are recomputed on a resize, when play starts or stops, on
/// frame 1 and every 15th frame, or when the wanted chrome / class differ
/// from the current bounds.
pub fn play_bounds_due(
    frame: u32,
    resized: bool,
    playing_flipped: bool,
    want_chrome: bool,
    have_chrome: bool,
    class: ViewportClass,
    bounds_class: ViewportClass,
) -> (b: bool)
    ensures
        b == (resized || playing_flipped || frame == 1 || frame % 15 == 0
            || want_chrome != have_chrome || class != bounds_class),
{
    if !resized && !playing_flipped && frame != 1 && frame % 15 != 0 {
        if want_chrome == have_chrome && class == bounds_class {
            return false;
        }
    }
    true
}

/// Handheld chrome (control deck / grips) is reserved only while playing
/// on a handheld class.
pub fn chrome_active(playing: bool, class: ViewportClass) -> (b: bool)
    ensures
        b == (playing && class.handheld()),
{
    playing && class.is_handheld()
}

} // verus!
