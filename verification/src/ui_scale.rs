//! Viewport classes for responsive layouts.
//!
//! Classification is by CSS viewport (logical pixels), not physical panel
//! resolution: phones have a short side of at most 500; tablets sit in the
//! middle band (768x1024, 1024x768, 820x1180, ...); laptops such as 1366x768
//! and 1536x864 are desktops, never tablets; 4K-class panels are recognised
//! first. Landscape 16:9 laptops are told apart from 4:3 tablets by aspect.

use vstd::prelude::*;

verus! {

/// Logical form factor used for layout, touch chrome, and QA.
#[derive(Clone, Copy, Debug, PartialEq, Eq, Hash, Structural)]
pub enum ViewportClass {
    PhonePortrait,
    PhoneLandscape,
    TabletPortrait,
    TabletLandscape,
    Desktop1080,
    Desktop4k,
}

impl Default for ViewportClass {
    fn default() -> (c: Self)
        ensures
            c == ViewportClass::Desktop1080,
    {
        ViewportClass::Desktop1080
    }
}

pub open spec fn class_label(c: ViewportClass) -> Seq<char> {
    match c {
        ViewportClass::PhonePortrait => "phone_portrait"@,
        ViewportClass::PhoneLandscape => "phone_landscape"@,
        ViewportClass::TabletPortrait => "tablet_portrait"@,
        ViewportClass::TabletLandscape => "tablet_landscape"@,
        ViewportClass::Desktop1080 => "1080p"@,
        ViewportClass::Desktop4k => "4k"@,
    }
}

/// Camera world height (orthographic, fixed vertical) for a class.
pub open spec fn world_height(c: ViewportClass) -> int {
    match c {
        ViewportClass::PhoneLandscape => 560,
        ViewportClass::PhonePortrait => 820,
        ViewportClass::TabletLandscape => 900,
        ViewportClass::TabletPortrait => 980,
        ViewportClass::Desktop1080 | ViewportClass::Desktop4k => 1080,
    }
}

impl ViewportClass {
    pub open spec fn handheld(self) -> bool {
        ||| self == ViewportClass::PhonePortrait
        ||| self == ViewportClass::PhoneLandscape
        ||| self == ViewportClass::TabletPortrait
        ||| self == ViewportClass::TabletLandscape
    }

    pub open spec fn portrait(self) -> bool {
        self == ViewportClass::PhonePortrait || self == ViewportClass::TabletPortrait
    }

    pub open spec fn phone(self) -> bool {
        self == ViewportClass::PhonePortrait || self == ViewportClass::PhoneLandscape
    }

    pub fn label(self) -> (s: &'static str)
        ensures
            s@ == class_label(self),
    {
        match self {
            ViewportClass::PhonePortrait => "phone_portrait",
            ViewportClass::PhoneLandscape => "phone_landscape",
            ViewportClass::TabletPortrait => "tablet_portrait",
            ViewportClass::TabletLandscape => "tablet_landscape",
            ViewportClass::Desktop1080 => "1080p",
            ViewportClass::Desktop4k => "4k",
        }
    }

    /// Phone or tablet: touch-first layout (virtual stick + dash chrome).
    pub fn is_handheld(self) -> (b: bool)
        ensures
            b == self.handheld(),
    {
        matches!(
            self,
            ViewportClass::PhonePortrait | ViewportClass::PhoneLandscape
                | ViewportClass::TabletPortrait | ViewportClass::TabletLandscape
        )
    }

    pub fn is_portrait(self) -> (b: bool)
        ensures
            b == self.portrait(),
    {
        matches!(self, ViewportClass::PhonePortrait | ViewportClass::TabletPortrait)
    }

    pub fn is_phone(self) -> (b: bool)
        ensures
            b == self.phone(),
    {
        matches!(self, ViewportClass::PhonePortrait | ViewportClass::PhoneLandscape)
    }

    pub fn is_compact(self) -> (b: bool)
        ensures
            b == (self == ViewportClass::PhonePortrait || self == ViewportClass::PhoneLandscape
                || self == ViewportClass::TabletPortrait),
    {
        matches!(
            self,
            ViewportClass::PhonePortrait | ViewportClass::PhoneLandscape | ViewportClass::TabletPortrait
        )
    }

    /// Orthographic world height for this class; the camera and the play
    /// bounds use the same height.
    pub fn view_height_world(self) -> (h: u32)
        ensures
            h == world_height(self),
    {
        match self {
            ViewportClass::PhoneLandscape => 560,
            ViewportClass::PhonePortrait => 820,
            ViewportClass::TabletLandscape => 900,
            ViewportClass::TabletPortrait => 980,
            ViewportClass::Desktop1080 | ViewportClass::Desktop4k => 1080,
        }
    }
}

/// World height of the camera view used by the play bounds for `class`.
pub fn view_height_for(class: ViewportClass) -> (h: u32)
    ensures
        h == world_height(class),
{
    match class {
        ViewportClass::PhoneLandscape => 560,
        ViewportClass::PhonePortrait => 820,
        ViewportClass::TabletLandscape => 900,
        ViewportClass::TabletPortrait => 980,
        ViewportClass::Desktop1080 | ViewportClass::Desktop4k => 1080,
    }
}

pub open spec fn at_least_one(x: int) -> int {
    if x >= 1 { x } else { 1 }
}

pub open spec fn min_int(a: int, b: int) -> int {
    if a <= b { a } else { b }
}

pub open spec fn max_int(a: int, b: int) -> int {
    if a >= b { a } else { b }
}

/// The layout class of a `width` x `height` CSS viewport (each side taken
/// as at least 1):
/// 1. 4K-class: short side >= 2000 or long side >= 3000, or QHD-ish
///    (short >= 1400 and long >= 2500);
/// 2. phone: short side <= 500, portrait when height >= width;
/// 3. phone landscape for short, ultra-wide viewports: landscape, aspect
///    above 1.85 and height below 560;
/// 4. desktop: a landscape laptop (short >= 700, long >= 1200, aspect at
///    least 1.45), or a window of at least 1100 x 650, or short > 900, or
///    long > 1400;
/// 5. tablet (portrait when height >= width) for what remains.
pub open spec fn classify(width: int, height: int) -> ViewportClass {
    let w = at_least_one(width);
    let h = at_least_one(height);
    let short = min_int(w, h);
    let long = max_int(w, h);
    let portrait = h >= w;
    if short >= 2000 || long >= 3000 {
        ViewportClass::Desktop4k
    } else if short >= 1400 && long >= 2500 {
        ViewportClass::Desktop4k
    } else if short <= 500 {
        if portrait { ViewportClass::PhonePortrait } else { ViewportClass::PhoneLandscape }
    } else if !portrait && 100 * w > 185 * h && h < 560 {
        ViewportClass::PhoneLandscape
    } else if (!portrait && short >= 700 && long >= 1200 && 100 * w >= 145 * h)
        || (w >= 1100 && h >= 650) || short > 900 || long > 1400 {
        ViewportClass::Desktop1080
    } else if portrait {
        ViewportClass::TabletPortrait
    } else {
        ViewportClass::TabletLandscape
    }
}

/// Classify a CSS (logical pixel) window size into a layout class.
pub fn classify_viewport(width: u32, height: u32) -> (c: ViewportClass)
    ensures
        c == classify(width as int, height as int),
{
    let w: u64 = if width >= 1 { width as u64 } else { 1 };
    let h: u64 = if height >= 1 { height as u64 } else { 1 };
    let short: u64 = if w <= h { w } else { h };
    let long: u64 = if w >= h { w } else { h };
    let portrait = h >= w;

    if short >= 2000 || long >= 3000 {
        return ViewportClass::Desktop4k;
    }
    if short >= 1400 && long >= 2500 {
        return ViewportClass::Desktop4k;
    }
    if short <= 500 {
        return if portrait { ViewportClass::PhonePortrait } else { ViewportClass::PhoneLandscape };
    }
    if !portrait && 100 * w > 185 * h && h < 560 {
        return ViewportClass::PhoneLandscape;
    }
    let landscape_laptop = !portrait && short >= 700 && long >= 1200 && 100 * w >= 145 * h;
    let desktop_window = w >= 1100 && h >= 650;
    if landscape_laptop || desktop_window || short > 900 || long > 1400 {
        return ViewportClass::Desktop1080;
    }
    if portrait {
        ViewportClass::TabletPortrait
    } else {
        ViewportClass::TabletLandscape
    }
}

/// Phones: a short side of at most 500 CSS pixels is a phone (unless the
/// long side is 4K-class), portrait exactly when height >= width.
pub proof fn law_phone_rule(width: int, height: int)
    requires
        min_int(at_least_one(width), at_least_one(height)) <= 500,
        max_int(at_least_one(width), at_least_one(height)) < 3000,
    ensures
        classify(width, height) == (if at_least_one(height) >= at_least_one(width) {
            ViewportClass::PhonePortrait
        } else {
            ViewportClass::PhoneLandscape
        }),
{
}

/// Rotating a phone swaps portrait and landscape.
pub proof fn law_phone_rotation(width: int, height: int)
    requires
        1 <= width,
        1 <= height,
        width != height,
        min_int(width, height) <= 500,
        max_int(width, height) < 3000,
    ensures
        classify(width, height) == ViewportClass::PhonePortrait <==> classify(height, width) == ViewportClass::PhoneLandscape,
        classify(width, height).phone() && classify(height, width).phone(),
{
}

/// Portrait classes only come from windows at least as tall as wide, and
/// landscape handheld classes only from wider ones.
pub proof fn law_orientation(width: int, height: int)
    ensures
        classify(width, height).portrait() ==> at_least_one(height) >= at_least_one(width),
        (classify(width, height) == ViewportClass::PhoneLandscape
            || classify(width, height) == ViewportClass::TabletLandscape)
            ==> at_least_one(width) > at_least_one(height),
{
}

/// 4K-class exactly for panels with a short side of 2000+, a long side of
/// 3000+, or QHD-ish sizes (1400+ by 2500+).
pub proof fn law_4k_rule(width: int, height: int)
    ensures
        classify(width, height) == ViewportClass::Desktop4k <==> {
            let short = min_int(at_least_one(width), at_least_one(height));
            let long = max_int(at_least_one(width), at_least_one(height));
            short >= 2000 || long >= 3000 || (short >= 1400 && long >= 2500)
        },
{
}

/// Tablets are the middle band: short side above 500 and at most 900,
/// long side at most 1400, and smaller than a 1100 x 650 desktop window.
pub proof fn law_tablet_band(width: int, height: int)
    ensures
        (classify(width, height) == ViewportClass::TabletPortrait
            || classify(width, height) == ViewportClass::TabletLandscape) ==> {
            let w = at_least_one(width);
            let h = at_least_one(height);
            &&& 500 < min_int(w, h) <= 900
            &&& max_int(w, h) <= 1400
            &&& !(w >= 1100 && h >= 650)
        },
{
}

/// Wide laptop screens (16:10 / 16:9, at least 1200 x 700) are desktops,
/// never tablets, so they never get touch chrome.
pub proof fn law_laptops_are_desktop(width: int, height: int)
    requires
        width >= 1200,
        700 <= height < 2000,
        width < 2500,
        100 * width >= 145 * height,
    ensures
        classify(width, height) == ViewportClass::Desktop1080,
        !classify(width, height).handheld(),
{
}

/// Handheld classes use a shorter world than desktops, so sprites look
/// larger on small screens.
pub proof fn law_handheld_world_shorter(c: ViewportClass)
    ensures
        c.handheld() ==> world_height(c) < 1080,
        !c.handheld() ==> world_height(c) == 1080,
{
}

/// Menu panel design size in world units.
#[derive(Clone, Copy, Debug, PartialEq, Eq, Structural)]
pub struct PanelSize {
    pub w: u32,
    pub h: u32,
}

/// Design panel that fits the class shape; desktop classes use a narrow
/// panel when the window is tall (aspect below 0.80).
pub open spec fn design_for(class: ViewportClass, width: int, height: int) -> PanelSize {
    match class {
        ViewportClass::PhonePortrait => PanelSize { w: 340, h: 420 },
        ViewportClass::PhoneLandscape => PanelSize { w: 720, h: 300 },
        ViewportClass::TabletPortrait => PanelSize { w: 460, h: 560 },
        ViewportClass::TabletLandscape => PanelSize { w: 680, h: 440 },
        ViewportClass::Desktop1080 | ViewportClass::Desktop4k => {
            if 5 * width < 4 * height {
                PanelSize { w: 400, h: 520 }
            } else {
                PanelSize { w: 720, h: 500 }
            }
        },
    }
}

/// Design panel (world units) for `class` in a `width` x `height` window.
pub fn menu_design_for(class: ViewportClass, width: u32, height: u32) -> (p: PanelSize)
    ensures
        p == design_for(class, width as int, height as int),
        class == ViewportClass::Desktop1080 || class == ViewportClass::Desktop4k ==> p == (if 5 * width < 4 * height {
            PanelSize { w: 400, h: 520 }
        } else {
            PanelSize { w: 720, h: 500 }
        }),
{
    match class {
        ViewportClass::PhonePortrait => PanelSize { w: 340, h: 420 },
        ViewportClass::PhoneLandscape => PanelSize { w: 720, h: 300 },
        ViewportClass::TabletPortrait => PanelSize { w: 460, h: 560 },
        ViewportClass::TabletLandscape => PanelSize { w: 680, h: 440 },
        ViewportClass::Desktop1080 | ViewportClass::Desktop4k => {
            if 5 * (width as u64) < 4 * (height as u64) {
                PanelSize { w: 400, h: 520 }
            } else {
                PanelSize { w: 720, h: 500 }
            }
        },
    }
}

/// Both desktop classes, 1080p and 4K alike, get the narrow 400 x 520
/// panel in a tall window (aspect below 0.80, i.e. 5 * width < 4 * height)
/// and the wide 720 x 500 panel otherwise.
pub proof fn law_desktop_panels(class: ViewportClass, width: int, height: int)
    requires
        class == ViewportClass::Desktop1080 || class == ViewportClass::Desktop4k,
    ensures
        5 * width < 4 * height ==> design_for(class, width, height) == (PanelSize { w: 400, h: 520 }),
        5 * width >= 4 * height ==> design_for(class, width, height) == (PanelSize { w: 720, h: 500 }),
{
}

/// Class guessed from the window shape and height alone (no width rules):
/// tall windows are phone portrait, short or very wide ones phone
/// landscape, very tall ones 4K, the rest 1080p.
pub open spec fn guess_class(width: int, height: int) -> ViewportClass {
    if 5 * width < 4 * height {
        ViewportClass::PhonePortrait
    } else if height < 520 || width > 2 * height {
        ViewportClass::PhoneLandscape
    } else if height >= 2000 {
        ViewportClass::Desktop4k
    } else {
        ViewportClass::Desktop1080
    }
}

/// Design panel from the window shape and height, without a class.
pub fn menu_design(width: u32, height: u32) -> (p: PanelSize)
    ensures
        p == design_for(guess_class(width as int, height as int), width as int, height as int),
{
    let w = width as u64;
    let h = height as u64;
    let class = if 5 * w < 4 * h {
        ViewportClass::PhonePortrait
    } else if h < 520 || w > 2 * h {
        ViewportClass::PhoneLandscape
    } else if h >= 2000 {
        ViewportClass::Desktop4k
    } else {
        ViewportClass::Desktop1080
    };
    menu_design_for(class, width, height)
}

} // verus!
