//! Fullscreen windows and the toolbar over them, which hides itself and never
//! lets its own gestures reach the remote desktop.
use crate::clock;
use crate::error::Error;
use crate::geometry::{rect_of, Rect};
use std::time::Instant;
use vstd::prelude::*;

verus! {

/// The height of the toolbar, and of the strip that reveals it.
pub const HEIGHT: u32 = 82;

pub const REVEAL_HEIGHT: u32 = 4;

/// How long the toolbar stays after the last interaction, in nanoseconds.
pub const HIDE_AFTER: u128 = 1_200_000_000;

/// The toolbar of a session window. Times are nanoseconds since its creation.
pub struct Chrome {
    pub fullscreen: bool,
    pub visible: bool,
    pub origin: Instant,
    pub last_interaction: u128,
}

/// The pointer is on the toolbar, or on the strip that reveals it.
pub open spec fn over(pointer: Option<(i32, i32)>, height: u32) -> bool {
    match pointer {
        Some((_, y)) => 0 <= y < height,
        None => false,
    }
}

impl Chrome {
    /// Outside fullscreen the toolbar always shows.
    pub open spec fn wf(&self) -> bool {
        !self.fullscreen ==> self.visible
    }

    /// The user is busy with the toolbar: revealing it, on it, or holding a button
    /// while it shows.
    pub open spec fn engaged(&self, pointer: Option<(i32, i32)>, buttons_down: bool) -> bool {
        over(pointer, REVEAL_HEIGHT) || self.visible && (over(pointer, HEIGHT) || buttons_down)
    }

    /// Whether the toolbar shows after an update at `now`.
    pub open spec fn shows_after(
        &self,
        pointer: Option<(i32, i32)>,
        buttons_down: bool,
        now: u128,
    ) -> bool {
        if !self.fullscreen || self.engaged(pointer, buttons_down) {
            true
        } else {
            self.visible && now < self.last_interaction + HIDE_AFTER
        }
    }

    /// The toolbar after an update at `now`.
    pub open spec fn updated(
        self,
        pointer: Option<(i32, i32)>,
        buttons_down: bool,
        now: u128,
    ) -> Chrome {
        Chrome {
            visible: self.shows_after(pointer, buttons_down, now),
            last_interaction: if self.fullscreen && self.engaged(pointer, buttons_down) {
                now
            } else {
                self.last_interaction
            },
            ..self
        }
    }

    pub fn new() -> (r: Self)
        ensures
            !r.fullscreen,
            r.visible,
            r.last_interaction == 0,
            r.wf(),
    {
        Chrome { fullscreen: false, visible: true, origin: clock::now(), last_interaction: 0 }
    }

    pub fn set_fullscreen_at(&mut self, fullscreen: bool, now: u128)
        ensures
            *final(self) == (Chrome {
                fullscreen,
                visible: true,
                last_interaction: now,
                ..*old(self)
            }),
            final(self).wf(),
    {
        self.fullscreen = fullscreen;
        self.visible = true;
        self.last_interaction = now;
    }

    /// The window enters or leaves fullscreen: the toolbar shows.
    pub fn set_fullscreen(&mut self, fullscreen: bool)
        ensures
            *final(self) == (Chrome {
                fullscreen,
                visible: true,
                last_interaction: final(self).last_interaction,
                ..*old(self)
            }),
            final(self).wf(),
    {
        let now: u128 = clock::nanos_since(&self.origin);
        self.set_fullscreen_at(fullscreen, now);
    }

    pub fn fullscreen(&self) -> (r: bool)
        ensures
            r == self.fullscreen,
    {
        self.fullscreen
    }

    pub fn visible(&self) -> (r: bool)
        ensures
            r == self.visible,
    {
        self.visible
    }

    /// How much of the window the toolbar takes from the desktop. In fullscreen it
    /// lies over the picture, which therefore never moves when it shows.
    pub fn inset(&self) -> (r: u32)
        ensures
            r == if self.fullscreen {
                0u32
            } else {
                HEIGHT
            },
    {
        if self.fullscreen {
            0
        } else {
            HEIGHT
        }
    }

    /// The pointer is at `pointer`, where it belongs to this window, at `now`. The
    /// toolbar never hides while a button is held, so that a gesture on it does not
    /// become a drag on the remote desktop. Returns whether it was hidden or shown.
    pub fn update_at(&mut self, pointer: Option<(i32, i32)>, buttons_down: bool, now: u128) -> (r:
        bool)
        requires
            old(self).wf(),
        ensures
            final(self).wf(),
            *final(self) == old(self).updated(pointer, buttons_down, now),
            r == (final(self).visible != old(self).visible),
    {
        let was_visible = self.visible;
        let on_strip = match pointer {
            Some((_, y)) => 0 <= y && y < REVEAL_HEIGHT as i32,
            None => false,
        };
        let on_toolbar = match pointer {
            Some((_, y)) => 0 <= y && y < HEIGHT as i32,
            None => false,
        };
        if !self.fullscreen {
            self.visible = true;
        } else if on_strip || (self.visible && on_toolbar) || (self.visible && buttons_down) {
            self.visible = true;
            self.last_interaction = now;
        } else if now >= self.last_interaction && now - self.last_interaction >= HIDE_AFTER {
            self.visible = false;
        }
        self.visible != was_visible
    }

    /// As [`Chrome::update_at`], now.
    pub fn update(&mut self, pointer: Option<(i32, i32)>, buttons_down: bool) -> (r: bool)
        requires
            old(self).wf(),
        ensures
            final(self).wf(),
            exists|now: u128|
                *final(self) == #[trigger] old(self).updated(pointer, buttons_down, now),
            r == (final(self).visible != old(self).visible),
    {
        let now: u128 = clock::nanos_since(&self.origin);
        self.update_at(pointer, buttons_down, now)
    }

    /// A point at this height is the toolbar's and not the desktop's.
    pub open spec fn blocked(&self, y: i32) -> bool {
        0 <= y < if self.visible {
            HEIGHT
        } else {
            REVEAL_HEIGHT
        }
    }

    pub fn blocks_pointer(&self, y: i32) -> (r: bool)
        ensures
            r == self.blocked(y),
    {
        y >= 0 && y < if self.visible {
            HEIGHT as i32
        } else {
            REVEAL_HEIGHT as i32
        }
    }

    /// The part of the window that is left to the desktop: its distance from the
    /// top, its width and its height.
    pub open spec fn left_over(&self, window: (u32, u32)) -> (u32, u32, u32) {
        let inset = if self.fullscreen {
            0
        } else if window.1 < HEIGHT {
            window.1
        } else {
            HEIGHT
        };
        (
            inset,
            if window.0 == 0 {
                1
            } else {
                window.0
            },
            if window.1 <= inset {
                1
            } else {
                (window.1 - inset) as u32
            },
        )
    }

    pub fn area(&self, window: (u32, u32)) -> (r: (u32, u32, u32))
        ensures
            r == self.left_over(window),
    {
        let inset: u32 = self.inset();
        let inset: u32 = if inset <= window.1 {
            inset
        } else {
            window.1
        };
        let width: u32 = if window.0 == 0 {
            1
        } else {
            window.0
        };
        let height: u32 = if window.1 - inset == 0 {
            1
        } else {
            window.1 - inset
        };
        (inset, width, height)
    }

    /// Where a picture of this size on the screen stands: in the middle of what is
    /// left to the desktop.
    pub open spec fn standing(&self, window: (u32, u32), scaled: (u32, u32)) -> Rect {
        let (inset, width, height) = self.left_over(window);
        rect_of(
            spare(width, scaled.0),
            signed(inset + spare(height, scaled.1)),
            scaled.0 as int,
            scaled.1 as int,
        )
    }

    /// The place of a picture that was scaled to this size for [`Chrome::area`].
    pub fn rect(&self, window: (u32, u32), scaled: (u32, u32)) -> (r: Rect)
        ensures
            r == self.standing(window, scaled),
            r.wf(),
            forall|other: Chrome|
                other.fullscreen == self.fullscreen ==> r == #[trigger] other.standing(
                    window,
                    scaled,
                ),
    {
        let (inset, width, height) = self.area(window);
        let x: u32 = width.saturating_sub(scaled.0) / 2;
        let y: u32 = inset + height.saturating_sub(scaled.1) / 2;
        Rect::new(x as i32, as_signed(y), scaled.0, scaled.1)
    }

    /// The point of the picture that the pointer is on, from its upper left corner.
    /// There is none on the toolbar, beside the picture, or where the picture is
    /// empty.
    pub open spec fn pointed_at(
        &self,
        x: i32,
        y: i32,
        window: (u32, u32),
        image: (u32, u32),
        scaled: (u32, u32),
    ) -> Option<(u32, u32)> {
        let place = self.standing(window, scaled);
        if self.blocked(y) || image.0 == 0 || image.1 == 0 || !place.holds(x as int, y as int) {
            None
        } else {
            Some(((x - place.x) as u32, (y - place.y) as u32))
        }
    }

    pub fn pointer(
        &self,
        x: i32,
        y: i32,
        window: (u32, u32),
        image: (u32, u32),
        scaled: (u32, u32),
    ) -> (r: Option<(u32, u32)>)
        ensures
            r == self.pointed_at(x, y, window, image, scaled),
            self.blocked(y) ==> r is None,
            r matches Some((dx, dy)) ==> dx < self.standing(window, scaled).width && dy
                < self.standing(window, scaled).height,
    {
        if self.blocks_pointer(y) || image.0 == 0 || image.1 == 0 {
            return None;
        }
        self.rect(window, scaled).offset(x, y)
    }
}

/// The signed number with the bits of this one.
pub open spec fn signed(v: int) -> int {
    if v <= i32::MAX {
        v
    } else {
        v - 0x1_0000_0000
    }
}

fn as_signed(v: u32) -> (r: i32)
    ensures
        r == signed(v as int),
{
    if v <= i32::MAX as u32 {
        v as i32
    } else {
        -1 - (u32::MAX - v) as i32
    }
}

/// Half of what is left of a side, for a picture in its middle.
pub open spec fn spare(side: u32, used: u32) -> int {
    if used >= side {
        0
    } else {
        (side - used) / 2
    }
}

/// What the toolbar blocks is nowhere on the desktop, whatever the window and the
/// picture.
pub proof fn blocked_points_stay_local(
    chrome: Chrome,
    x: i32,
    y: i32,
    window: (u32, u32),
    image: (u32, u32),
    scaled: (u32, u32),
)
    requires
        chrome.blocked(y),
    ensures
        chrome.pointed_at(x, y, window, image, scaled) is None,
{
}

/// A toolbar that shows or hides never moves or rescales the desktop: the picture
/// stands at one place, however `fit` scales an image for the room that is left. The
/// whole height is left in fullscreen; otherwise the rows of the toolbar are free,
/// wherever the window is not so high that the picture's place has no signed number.
pub proof fn toolbar_moves_nothing(
    a: Chrome,
    b: Chrome,
    window: (u32, u32),
    image: (u32, u32),
    fit: spec_fn((u32, u32, u32), (u32, u32)) -> (u32, u32),
)
    requires
        a.fullscreen == b.fullscreen,
    ensures
        fit(a.left_over(window), image) == fit(b.left_over(window), image),
        a.standing(window, fit(a.left_over(window), image)) == b.standing(
            window,
            fit(b.left_over(window), image),
        ),
        a.fullscreen && window.1 > 0 ==> a.left_over(window).0 == 0 && a.left_over(window).2
            == window.1,
        !a.fullscreen && HEIGHT <= window.1 <= 4_294_967_213 ==> a.standing(
            window,
            fit(a.left_over(window), image),
        ).y >= HEIGHT,
{
    assert(a.left_over(window) == b.left_over(window));
}

/// A button that is held keeps a toolbar that shows, whatever else happens.
pub proof fn held_button_keeps_the_toolbar(
    chrome: Chrome,
    pointer: Option<(i32, i32)>,
    now: u128,
)
    requires
        chrome.wf(),
        chrome.visible,
    ensures
        chrome.shows_after(pointer, true, now),
{
}

/// A pointer that stays on the toolbar keeps it, however long it does.
pub proof fn pointer_keeps_the_toolbar(
    chrome: Chrome,
    pointer: Option<(i32, i32)>,
    buttons_down: bool,
    now: u128,
)
    requires
        chrome.visible,
        over(pointer, HEIGHT),
    ensures
        chrome.shows_after(pointer, buttons_down, now),
{
}

/// Where a window stood before it became fullscreen, on whichever monitor.
pub struct Placement {
    pub position: (i32, i32),
    pub size: (u32, u32),
    pub maximized: bool,
}

impl Placement {
    pub fn capture(position: (i32, i32), size: (u32, u32), maximized: bool) -> (r: Self)
        ensures
            r.position == position,
            r.size == size,
            r.maximized == maximized,
    {
        Placement { position, size, maximized }
    }
}

/// Whether a window may enter fullscreen on this one of `count` displays.
pub fn check_display(display: i32, count: i32) -> (r: Result<(), Error>)
    ensures
        r is Ok <==> 0 <= display < count,
        r matches Err(e) ==> e == Error::DisplayGone,
{
    if 0 <= display && display < count {
        Ok(())
    } else {
        Err(Error::DisplayGone)
    }
}

} // verus!
