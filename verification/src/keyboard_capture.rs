//! Keyboard capture and the shortcuts that stay local. The mouse is never
//! confined.
use vstd::prelude::*;

verus! {

/// The key codes and modifier bits of SDL that matter here.
pub const KEY_Q: i32 = 113;

pub const KEY_K: i32 = 107;

pub const KEY_F8: i32 = 1_073_741_889;

pub const CTRL: u16 = 0x00C0;

pub const ALT: u16 = 0x0300;

/// What became of a request to capture the keyboard for the focused window.
#[derive(Clone, Copy, PartialEq, Eq, Structural, Debug)]
pub enum Follow {
    /// Nothing to do: the keyboard is not captured, or is where it should be.
    Stay,
    /// Another of the session's windows has the focus.
    Bind(u32),
    /// The focus has left the session.
    Release,
}

/// The window that holds the keyboard, by its identifier.
pub struct Capture {
    pub window: Option<u32>,
}

impl Default for Capture {
    fn default() -> (r: Self)
        ensures
            r.window is None,
    {
        Capture { window: None }
    }
}

impl Capture {
    pub fn active(&self) -> (r: bool)
        ensures
            r == (self.window is Some),
    {
        self.window.is_some()
    }

    /// Gives the keyboard back. What is returned is the window to let go of.
    pub fn release(&mut self) -> (r: Option<u32>)
        ensures
            r == old(self).window,
            final(self).window is None,
    {
        let window = self.window;
        self.window = None;
        window
    }

    /// The keyboard once it was asked for.
    pub open spec fn bound(window: u32, granted: bool, after: Self, r: bool) -> bool {
        &&& r == granted
        &&& after.window == if granted {
            Some(window)
        } else {
            None
        }
    }

    /// A window asked for the keyboard, and was or was not granted it. Whatever
    /// held it before must have been released.
    pub fn bind(&mut self, window: u32, granted: bool) -> (r: bool)
        ensures
            Self::bound(window, granted, *final(self), r),
    {
        self.window = if granted {
            Some(window)
        } else {
            None
        };
        granted
    }

    /// What becomes of the keyboard when this window has the focus.
    pub open spec fn followed(&self, focused: Option<u32>, r: Follow) -> bool {
        &&& r == match (self.window, focused) {
            (None, _) => Follow::Stay,
            (Some(_), None) => Follow::Release,
            (Some(held), Some(wanted)) => if held == wanted {
                Follow::Stay
            } else {
                Follow::Bind(wanted)
            },
        }
    }

    /// What to do now that `focused` has the focus.
    pub fn follow(&self, focused: Option<u32>) -> (r: Follow)
        ensures
            self.followed(focused, r),
    {
        match (self.window, focused) {
            (None, _) => Follow::Stay,
            (Some(_), None) => Follow::Release,
            (Some(held), Some(wanted)) => if held == wanted {
                Follow::Stay
            } else {
                Follow::Bind(wanted)
            },
        }
    }
}

#[derive(Clone, Copy, PartialEq, Eq, Structural, Debug)]
pub enum Action {
    Toggle,
    Disconnect,
    Stats,
    Swallow,
}

/// A key goes down or up. A key without a code matches no shortcut.
#[derive(Clone, Copy, PartialEq, Eq, Structural, Debug)]
pub struct KeyEvent {
    pub keycode: Option<i32>,
    pub modifiers: u16,
    pub down: bool,
    pub repeat: bool,
}

/// The consumed keys that are still down. A key that was consumed when it went
/// down is consumed when it comes up, in whatever order the modifiers are let go.
#[derive(Clone, Copy, PartialEq, Eq, Structural, Debug)]
pub struct Shortcuts {
    pub toggle_down: bool,
    pub stats_down: bool,
}

impl Default for Shortcuts {
    fn default() -> (r: Self)
        ensures
            r == (Shortcuts { toggle_down: false, stats_down: false }),
    {
        Shortcuts { toggle_down: false, stats_down: false }
    }
}

/// A control key and an alt key are down.
pub open spec fn chord(modifiers: u16) -> bool {
    modifiers & CTRL != 0 && modifiers & ALT != 0
}

impl KeyEvent {
    pub open spec fn is_key(self, code: i32) -> bool {
        self.keycode == Some(code)
    }

    pub open spec fn disconnects(self) -> bool {
        self.is_key(KEY_Q) && self.down && chord(self.modifiers)
    }
}

/// The key ends the session: Q with a control key and an alt key.
pub fn quits(event: &KeyEvent) -> (r: bool)
    ensures
        r == event.disconnects(),
{
    match event.keycode {
        Some(key) => key == KEY_Q && event.down && event.modifiers & CTRL != 0 && event.modifiers
            & ALT != 0,
        None => false,
    }
}

impl Shortcuts {
    pub open spec fn takes_toggle(self, event: KeyEvent) -> bool {
        event.is_key(KEY_K) && (self.toggle_down || event.down && chord(event.modifiers))
    }

    pub open spec fn takes_stats(self, event: KeyEvent, captured: bool) -> bool {
        event.is_key(KEY_F8) && (self.stats_down || event.down && !captured)
    }

    /// What an event means here; `None` where it belongs to the remote desktop.
    pub open spec fn meaning(self, event: KeyEvent, captured: bool) -> Option<Action> {
        let first = event.down && !event.repeat;
        if event.disconnects() {
            Some(Action::Disconnect)
        } else if self.takes_toggle(event) {
            Some(
                if first && !self.toggle_down {
                    Action::Toggle
                } else {
                    Action::Swallow
                },
            )
        } else if self.takes_stats(event, captured) {
            Some(
                if first && !self.stats_down {
                    Action::Stats
                } else {
                    Action::Swallow
                },
            )
        } else {
            None
        }
    }

    /// The consumed keys after an event.
    pub open spec fn after(self, event: KeyEvent, captured: bool) -> Shortcuts {
        Shortcuts {
            toggle_down: if self.takes_toggle(event) {
                event.down
            } else {
                self.toggle_down
            },
            stats_down: if self.takes_stats(event, captured) {
                event.down
            } else {
                self.stats_down
            },
        }
    }

    pub fn event(&mut self, event: &KeyEvent, captured: bool) -> (r: Option<Action>)
        ensures
            r == old(self).meaning(*event, captured),
            *final(self) == old(self).after(*event, captured),
    {
        let key: i32 = match event.keycode {
            Some(key) => key,
            None => return None,
        };
        let chord = event.modifiers & CTRL != 0 && event.modifiers & ALT != 0;
        let first = event.down && !event.repeat;
        if quits(event) {
            return Some(Action::Disconnect);
        }
        if key == KEY_K && (self.toggle_down || (event.down && chord)) {
            let fresh = first && !self.toggle_down;
            self.toggle_down = event.down;
            return Some(
                if fresh {
                    Action::Toggle
                } else {
                    Action::Swallow
                },
            );
        }
        if key == KEY_F8 && (self.stats_down || (!captured && event.down)) {
            let fresh = first && !self.stats_down;
            self.stats_down = event.down;
            return Some(
                if fresh {
                    Action::Stats
                } else {
                    Action::Swallow
                },
            );
        }
        None
    }
}

/// The emergency exit works in every state, captured or not.
pub proof fn emergency_exit_always_works(state: Shortcuts, event: KeyEvent, captured: bool)
    requires
        event.disconnects(),
    ensures
        state.meaning(event, captured) == Some(Action::Disconnect),
{
}

/// A key that stayed local when it went down stays local when it repeats and when
/// it comes up, whatever the modifiers and the capture are by then; and once it is
/// up it is the remote desktop's again.
pub proof fn local_keys_stay_local_until_released(
    state: Shortcuts,
    press: KeyEvent,
    captured: bool,
    next: KeyEvent,
    captured_then: bool,
)
    requires
        press.down,
        state.takes_toggle(press) || state.takes_stats(press, captured),
        next.keycode == press.keycode,
        !next.disconnects(),
    ensures
        state.after(press, captured).meaning(next, captured_then) == Some(Action::Swallow),
        !next.down ==> {
            let released = state.after(press, captured).after(next, captured_then);
            &&& press.is_key(KEY_K) ==> !released.toggle_down
            &&& press.is_key(KEY_F8) ==> !released.stats_down
        },
{
}

/// While the keyboard is captured and no local key is down, everything but the two
/// chords goes to the remote desktop.
pub proof fn captured_keys_go_remote(state: Shortcuts, event: KeyEvent)
    requires
        !state.toggle_down && !state.stats_down,
        !event.disconnects(),
        !(event.is_key(KEY_K) && event.down && chord(event.modifiers)),
    ensures
        state.meaning(event, true) is None,
        state.after(event, true) == state,
{
}

} // verus!
