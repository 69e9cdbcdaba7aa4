//! A session with a remote desktop, as the client's window sees it: what the user
//! does, what the host says, and the pictures that arrive; and, without a window,
//! the same for a scripted check of a connection.
use crate::client::{
    self, Options, AUDIO, CLIPBOARD_SMOKE, DISCONNECT, FULLSCREEN, GET_TEXT, HALF, MONITOR,
    RECONNECT, SEND_TEXT, TOOLBAR_HEIGHT,
};
use crate::client::{button_number, MouseButton};
use crate::error::Error;
use crate::keyboard_capture::{self, KeyEvent};
use crate::protocol::{self, key_code, unit_interval, Desktop, Event, Update};
use crate::text;
use vstd::prelude::*;

verus! {

/// The part of a session that is flags and numbers.
#[derive(Clone, Copy, PartialEq, Eq, Debug)]
pub struct Flags {
    pub muted: bool,
    /// There is an audio output.
    pub audio: bool,
    /// The user wants another session after this one.
    pub reconnect: bool,
    /// The host's clipboard was asked for, and has not come.
    pub clipboard_requested: bool,
    /// Another monitor was asked for, and its picture has not come.
    pub switching: bool,
    /// The host has said that it sends the other monitor.
    pub switch_ack: bool,
    /// The last motion of the pointer that was not sent yet, as the bit patterns of
    /// its coordinates.
    pub motion: Option<(u64, u64)>,
}

pub struct Session {
    pub desktop: Desktop,
    /// Text transfers are permitted on this side.
    pub clipboard: bool,
    pub flags: Flags,
    pub notice: String,
    /// The size of the last picture; zero before the first.
    pub size: (u32, u32),
    /// Pictures since the title was last drawn, and in all.
    pub frames: u64,
    pub total_frames: u64,
}

/// What happens at the window. A point that lies on the desktop comes with its
/// coordinates there.
pub enum UiEvent {
    Quit,
    KeyDown { scancode: Option<usize>, keycode: Option<i32>, modifiers: u16, repeat: bool },
    KeyUp { scancode: Option<usize> },
    Motion { at: Option<(u64, u64)> },
    ButtonDown { button: MouseButton, x: i32, y: i32, width: u32, at: Option<(u64, u64)> },
    ButtonUp { button: MouseButton, at: Option<(u64, u64)> },
    Wheel { x: i32, y: i32, flipped: bool },
    FocusLost,
    Other,
}

/// What the program does here and now.
#[derive(Clone, Copy, PartialEq, Eq, Structural, Debug)]
pub enum Local {
    Nothing,
    /// End the session.
    Quit,
    /// Enter or leave fullscreen.
    Fullscreen,
    /// Mute the audio output, or not.
    Mute(bool),
    /// Read the clipboard, and say what was in it.
    ReadClipboard,
}

pub struct Reaction {
    /// What is sent to the host, in this order.
    pub sends: Vec<Event>,
    pub local: Local,
}

/// What the host's message asks of the program.
pub enum Told {
    Nothing,
    /// Drop the picture that was decoded but not shown.
    DropImage,
    /// Put this text in the clipboard.
    Copy(String),
}

pub open spec fn scroll_step(v: i32, flipped: bool) -> i32 {
    let kept: int = if v > 20 {
        20
    } else if v < -20 {
        -20
    } else {
        v as int
    };
    (if flipped {
        -kept
    } else {
        kept
    }) as i32
}

/// How far a wheel scrolls: within twenty steps, and the other way where the system
/// has turned it round.
pub fn scroll(v: i32, flipped: bool) -> (r: i32)
    ensures
        r == scroll_step(v, flipped),
        -20 <= r <= 20,
{
    let kept: i32 = if v > 20 {
        20
    } else if v < -20 {
        -20
    } else {
        v
    };
    if flipped {
        -kept
    } else {
        kept
    }
}

impl UiEvent {
    /// Coordinates on the desktop lie between zero and one.
    pub open spec fn on_desktop(self) -> bool {
        match self {
            UiEvent::Motion { at } => at matches Some((x, y)) ==> unit_interval(x)
                && unit_interval(y),
            UiEvent::ButtonDown { at, width, .. } => width * 7 <= u32::MAX && (at matches Some(
                (x, y),
            ) ==> unit_interval(x) && unit_interval(y)),
            UiEvent::ButtonUp { at, .. } => at matches Some((x, y)) ==> unit_interval(x)
                && unit_interval(y),
            _ => true,
        }
    }

    /// The left button goes down on the toolbar.
    pub open spec fn on_toolbar(self) -> bool {
        self matches UiEvent::ButtonDown { button, y, .. } && button == MouseButton::Left && y
            < TOOLBAR_HEIGHT
    }

    /// The event is input, which waits while the monitor is being switched.
    pub open spec fn is_input(self) -> bool {
        match self {
            UiEvent::KeyDown { .. } => true,
            UiEvent::KeyUp { .. } => true,
            UiEvent::Motion { .. } => true,
            UiEvent::ButtonDown { .. } => true,
            UiEvent::ButtonUp { .. } => true,
            UiEvent::Wheel { .. } => true,
            _ => false,
        }
    }
}

/// A position, as it is sent.
pub open spec fn moved(at: Option<(u64, u64)>) -> Seq<Event> {
    match at {
        Some((x, y)) => seq![Event::Motion { x, y }],
        None => Seq::empty(),
    }
}

pub open spec fn button_sent(button: MouseButton, down: bool) -> Seq<Event> {
    match button_number(button) {
        Some(n) => seq![Event::Button { button: n, down }],
        None => Seq::empty(),
    }
}

pub open spec fn key_sent(scancode: Option<usize>, down: bool) -> Seq<Event> {
    match scancode {
        Some(s) => match key_code(s as int) {
            Some(code) => seq![Event::Key { code, down }],
            None => Seq::empty(),
        },
        None => Seq::empty(),
    }
}

/// The number in the name of a monitor.
pub open spec fn monitor_name(index: usize) -> Seq<char> {
    "Monitor "@ + text::decimal((index + 1) as nat)
}

impl Session {
    /// What every step keeps.
    pub open spec fn wf(&self) -> bool {
        &&& self.desktop.active_monitor < usize::MAX
        &&& self.flags.motion matches Some((x, y)) ==> unit_interval(x) && unit_interval(y)
    }

    /// Text can be transferred: both sides permit it.
    pub open spec fn transfers(&self) -> bool {
        self.clipboard && self.desktop.clipboard
    }

    /// Another monitor can be asked for.
    pub open spec fn can_switch(&self) -> bool {
        !self.flags.switching && self.desktop.monitors@.len() > 1
    }

    pub open spec fn next_monitor(&self) -> usize {
        ((self.desktop.active_monitor + 1) % self.desktop.monitors@.len() as int) as usize
    }

    pub open spec fn audio_notice(&self, muted: bool) -> Seq<char> {
        if !self.desktop.audio {
            "Host audio is disabled"@
        } else if muted {
            "Audio muted"@
        } else {
            "Audio on"@
        }
    }

    /// What a click on a button sends. Whatever is held on the host is let go, so
    /// that the toolbar's clicks and the modifiers held with them stay local.
    pub open spec fn button_sends(&self, hit: Option<usize>) -> Seq<Event> {
        match hit {
            Some(MONITOR) if self.can_switch() => seq![
                Event::ReleaseAll,
                Event::SelectMonitor { index: self.next_monitor() },
            ],
            Some(GET_TEXT) if self.transfers() => seq![Event::ReleaseAll, Event::ClipboardRequest],
            _ => seq![Event::ReleaseAll],
        }
    }

    pub open spec fn button_local(&self, hit: Option<usize>) -> Local {
        match hit {
            Some(AUDIO) if self.flags.audio => Local::Mute(!self.flags.muted),
            Some(SEND_TEXT) if self.transfers() => Local::ReadClipboard,
            Some(FULLSCREEN) => Local::Fullscreen,
            Some(RECONNECT) => Local::Quit,
            Some(DISCONNECT) => Local::Quit,
            _ => Local::Nothing,
        }
    }

    pub open spec fn button_flags(&self, hit: Option<usize>) -> Flags {
        let flags = Flags { motion: None, ..self.flags };
        match hit {
            Some(MONITOR) if self.can_switch() => Flags {
                switching: true,
                switch_ack: false,
                ..flags
            },
            Some(AUDIO) => Flags { muted: !flags.muted, ..flags },
            Some(GET_TEXT) if self.transfers() => Flags { clipboard_requested: true, ..flags },
            Some(RECONNECT) => Flags { reconnect: true, ..flags },
            _ => flags,
        }
    }

    pub open spec fn button_notice(&self, hit: Option<usize>) -> Seq<char> {
        match hit {
            Some(MONITOR) if self.can_switch() => "Switching monitor…"@,
            Some(AUDIO) => self.audio_notice(!self.flags.muted),
            Some(SEND_TEXT) if self.transfers() => self.notice@,
            Some(GET_TEXT) if self.transfers() => "Fetching clipboard…"@,
            Some(SEND_TEXT) | Some(
                GET_TEXT,
            ) => "Clipboard requires --clipboard on both host and client"@,
            _ => self.notice@,
        }
    }

    /// Nothing but flags and notice has changed since `other`.
    pub open spec fn same_stream(&self, other: &Session) -> bool {
        &&& self.desktop == other.desktop
        &&& self.clipboard == other.clipboard
        &&& self.size == other.size
        &&& self.frames == other.frames
        &&& self.total_frames == other.total_frames
    }

    /// A session that begins with this desktop.
    pub fn new(options: &Options, desktop: Desktop, audio: bool) -> (r: Session)
        requires
            desktop.active_monitor < usize::MAX,
        ensures
            r.wf(),
            r.desktop == desktop,
            r.clipboard == options.clipboard,
            r.flags == (Flags {
                muted: options.mute,
                audio,
                reconnect: false,
                clipboard_requested: false,
                switching: false,
                switch_ack: false,
                motion: None,
            }),
            r.notice@.len() == 0,
            r.size == (0u32, 0u32),
            r.frames == 0,
            r.total_frames == 0,
    {
        Session {
            desktop,
            clipboard: options.clipboard,
            flags: Flags {
                muted: options.mute,
                audio,
                reconnect: false,
                clipboard_requested: false,
                switching: false,
                switch_ack: false,
                motion: None,
            },
            notice: String::new(),
            size: (0, 0),
            frames: 0,
            total_frames: 0,
        }
    }

    /// The audio output has failed. The desktop stays connected.
    pub fn audio_failed(&mut self)
        requires
            old(self).wf(),
        ensures
            final(self).wf(),
            final(self).flags == (Flags { audio: false, ..old(self).flags }),
            final(self).notice@ == "Audio output unavailable; reconnect to retry"@,
            final(self).same_stream(old(self)),
    {
        self.flags.audio = false;
        self.notice = "Audio output unavailable; reconnect to retry".to_string();
    }

    /// What the host's word makes of the session, and what the program is told.
    pub open spec fn updated(self, update: Update, after: Session, r: Result<Told, Error>) -> bool {
        match update {
            Update::Desktop { desktop } => if desktop.version == protocol::VERSION
                && desktop.monitors@.len() <= 64 {
                &&& r matches Ok(Told::DropImage)
                &&& after.desktop == desktop
                &&& after.flags == (Flags { switch_ack: true, ..self.flags })
                &&& after.notice@ == monitor_name(desktop.active_monitor)
                &&& after == (Session {
                    desktop,
                    flags: after.flags,
                    notice: after.notice,
                    ..self
                })
            } else {
                r == Err::<Told, Error>(Error::MonitorMetadata) && after == self
            },
            Update::Clipboard { text } => if !(self.clipboard && self.flags.clipboard_requested) {
                r matches Ok(Told::Nothing) && after == self
            } else if (Event::Clipboard { text }).valid() {
                &&& r == Ok::<Told, Error>(Told::Copy(text))
                &&& after.flags == (Flags {
                    clipboard_requested: false,
                    ..self.flags
                })
                &&& after.notice@ == "Host text copied to this clipboard"@
                &&& after.same_stream(&self)
            } else {
                r == Err::<Told, Error>(Error::ClipboardText) && after == self
            },
            Update::Notice { text } => {
                &&& r matches Ok(Told::Nothing)
                &&& after.notice@ == text::clipped(text@, 160)
                &&& after.flags == self.flags
                &&& after.same_stream(&self)
            },
            _ => r matches Ok(Told::Nothing) && after == self,
        }
    }

    /// The host says something.
    pub fn update(&mut self, update: Update) -> (r: Result<Told, Error>)
        requires
            old(self).wf(),
            update matches Update::Desktop { desktop } ==> desktop.active_monitor < usize::MAX,
        ensures
            final(self).wf(),
            old(self).updated(update, *final(self), r),
    {
        match update {
            Update::Desktop { desktop } => {
                if !(desktop.version == protocol::VERSION && desktop.monitors.len() <= 64) {
                    return Err(Error::MonitorMetadata);
                }
                self.desktop = desktop;
                self.flags.switch_ack = true;
                let mut notice = String::new();
                notice.push_str("Monitor ");
                text::push_decimal(&mut notice, self.desktop.active_monitor as u64 + 1);
                self.notice = notice;
                Ok(Told::DropImage)
            },
            Update::Clipboard { text } => {
                if !(self.clipboard && self.flags.clipboard_requested) {
                    return Ok(Told::Nothing);
                }
                let event = Event::Clipboard { text };
                match event.validate() {
                    Ok(()) => {},
                    Err(e) => return Err(e),
                }
                self.flags.clipboard_requested = false;
                self.notice = "Host text copied to this clipboard".to_string();
                match event {
                    Event::Clipboard { text } => Ok(Told::Copy(text)),
                    _ => Ok(Told::Nothing),
                }
            },
            Update::Notice { text } => {
                self.notice = text::clip(text.as_str(), 160);
                Ok(Told::Nothing)
            },
            _ => Ok(Told::Nothing),
        }
    }

    /// A click on the toolbar.
    fn toolbar(&mut self, hit: Option<usize>) -> (r: Reaction)
        requires
            old(self).wf(),
        ensures
            final(self).wf(),
            r.sends@ == old(self).button_sends(hit),
            r.local == old(self).button_local(hit),
            final(self).flags == old(self).button_flags(hit),
            final(self).notice@ == old(self).button_notice(hit),
            final(self).same_stream(old(self)),
    {
        let transfers = self.clipboard && self.desktop.clipboard;
        let mut sends: Vec<Event> = Vec::new();
        let mut local = Local::Nothing;
        self.flags.motion = None;
        sends.push(Event::ReleaseAll);
        match hit {
            Some(0) => {
                let count: usize = self.desktop.monitors.len();
                if !self.flags.switching && count > 1 {
                    let index: usize = (self.desktop.active_monitor + 1) % count;
                    sends.push(Event::SelectMonitor { index });
                    self.flags.switching = true;
                    self.flags.switch_ack = false;
                    self.notice = "Switching monitor…".to_string();
                }
            },
            Some(1) => {
                let muted = !self.flags.muted;
                self.flags.muted = muted;
                if self.flags.audio {
                    local = Local::Mute(muted);
                }
                self.notice = if !self.desktop.audio {
                    "Host audio is disabled".to_string()
                } else if muted {
                    "Audio muted".to_string()
                } else {
                    "Audio on".to_string()
                };
            },
            Some(2) => {
                if transfers {
                    local = Local::ReadClipboard;
                } else {
                    self.notice = "Clipboard requires --clipboard on both host and client"
                        .to_string();
                }
            },
            Some(3) => {
                if transfers {
                    sends.push(Event::ClipboardRequest);
                    self.flags.clipboard_requested = true;
                    self.notice = "Fetching clipboard…".to_string();
                } else {
                    self.notice = "Clipboard requires --clipboard on both host and client"
                        .to_string();
                }
            },
            Some(4) => {
                local = Local::Fullscreen;
            },
            Some(5) => {
                self.flags.reconnect = true;
                local = Local::Quit;
            },
            Some(6) => {
                local = Local::Quit;
            },
            _ => {},
        }
        assert(sends@ =~= old(self).button_sends(hit));
        Reaction { sends, local }
    }

    /// What is sent of the clipboard, and the session then.
    pub open spec fn copied(
        self,
        read: Result<String, String>,
        after: Session,
        r: Option<Event>,
    ) -> bool {
        &&& match read {
            Ok(text) => if (Event::Clipboard { text }).valid() {
                &&& r == Some(Event::Clipboard { text })
                &&& after.notice@ == "Sending clipboard…"@
            } else {
                &&& r is None
                &&& after.notice@ == Error::ClipboardText.text()
            },
            Err(complaint) => r is None && after.notice == complaint,
        }
        &&& after.flags == self.flags
        &&& after.same_stream(&self)
    }

    /// The clipboard was read for the host, with this text or this complaint.
    pub fn clipboard_read(&mut self, read: Result<String, String>) -> (r: Option<Event>)
        requires
            old(self).wf(),
        ensures
            final(self).wf(),
            old(self).copied(read, *final(self), r),
    {
        match read {
            Ok(text) => {
                let event = Event::Clipboard { text };
                match event.validate() {
                    Ok(()) => {
                        self.notice = "Sending clipboard…".to_string();
                        Some(event)
                    },
                    Err(e) => {
                        self.notice = e.message().to_string();
                        None
                    },
                }
            },
            Err(complaint) => {
                self.notice = complaint;
                None
            },
        }
    }

    /// The event ends the session at once: the quit chord, wherever it is pressed.
    pub open spec fn quits(event: UiEvent) -> bool {
        event matches UiEvent::KeyDown { keycode, modifiers, repeat, .. } && (KeyEvent {
            keycode,
            modifiers,
            down: true,
            repeat,
        }).disconnects()
    }

    /// The event goes nowhere: the wheel over the toolbar, and input while the
    /// monitor is being switched.
    pub open spec fn ignores(&self, event: UiEvent, pointer_in_toolbar: bool) -> bool {
        event is Wheel && pointer_in_toolbar || !Self::quits(event) && !event.on_toolbar()
            && self.flags.switching && event.is_input()
    }

    /// What an event on the desktop sends.
    pub open spec fn input_sends(event: UiEvent) -> Seq<Event> {
        match event {
            UiEvent::KeyDown { scancode, repeat, .. } => if repeat {
                Seq::empty()
            } else {
                key_sent(scancode, true)
            },
            UiEvent::KeyUp { scancode } => key_sent(scancode, false),
            UiEvent::ButtonDown { button, at, .. } => if at is Some {
                moved(at) + button_sent(button, true)
            } else {
                Seq::empty()
            },
            UiEvent::ButtonUp { button, at } => moved(at) + button_sent(button, false),
            UiEvent::Wheel { x, y, flipped } => seq![
                Event::Scroll { x: scroll_step(x, flipped), y: scroll_step(y, flipped) },
            ],
            UiEvent::FocusLost => seq![Event::ReleaseAll],
            _ => Seq::empty(),
        }
    }

    /// The pending motion after an event on the desktop. Motions are sent one for
    /// each redraw, the last one; what is not a motion sends its own position or
    /// makes the pending one void.
    pub open spec fn pending_motion(&self, event: UiEvent) -> Option<(u64, u64)> {
        match event {
            UiEvent::Motion { at } => at,
            UiEvent::ButtonDown { .. } => None,
            UiEvent::ButtonUp { .. } => None,
            UiEvent::FocusLost => None,
            _ => self.flags.motion,
        }
    }

    /// A click on the toolbar was one on this button, or on none.
    pub open spec fn clicked(
        self,
        event: UiEvent,
        hit: Option<usize>,
        after: Session,
        r: Reaction,
    ) -> bool {
        let (x, y) = (event->ButtonDown_x as int, event->ButtonDown_y as int);
        let width = event->width as int;
        &&& match hit {
            Some(i) => client::button_at(x, y, width, i as int),
            None => forall|j: int|
                0 <= j < client::BUTTONS ==> !(#[trigger] client::button_rect(j, width)).holds(x, y),
        }
        &&& r.sends@ == self.button_sends(hit)
        &&& r.local == self.button_local(hit)
        &&& after.flags == self.button_flags(hit)
        &&& after.notice@ == self.button_notice(hit)
    }

    /// What an event at the window makes of the session, and what the program is to do.
    pub open spec fn reacted(
        self,
        event: UiEvent,
        pointer_in_toolbar: bool,
        after: Session,
        r: Reaction,
    ) -> bool {
        &&& after.same_stream(&self)
        &&& self.ignores(event, pointer_in_toolbar) ==> r.sends@.len() == 0 && r.local
            == Local::Nothing && after == self
        &&& Self::quits(event) || event is Quit ==> r.sends@.len() == 0 && r.local == Local::Quit
            && after == self
        &&& event.on_toolbar() ==> {
            exists|hit: Option<usize>| #[trigger] self.clicked(event, hit, after, r)
        }
        &&& !self.ignores(event, pointer_in_toolbar) && !Self::quits(event) && !event.on_toolbar()
            && !(event is Quit) ==> {
            &&& r.sends@ == Self::input_sends(event)
            &&& r.local == Local::Nothing
            &&& after.flags == (Flags { motion: self.pending_motion(event), ..self.flags })
            &&& after.notice@ == self.notice@
        }
    }

    /// Something happens at the window.
    pub fn ui(&mut self, event: UiEvent, pointer_in_toolbar: bool) -> (r: Reaction)
        requires
            old(self).wf(),
            event.on_desktop(),
        ensures
            final(self).wf(),
            old(self).reacted(event, pointer_in_toolbar, *final(self), r),
            old(self).desktop.monitors@.len() <= 64 ==> forall|i: int|
                0 <= i < r.sends@.len() ==> (#[trigger] r.sends@[i]).valid(),
    {
        let mut sends: Vec<Event> = Vec::new();
        if pointer_in_toolbar && matches!(event, UiEvent::Wheel { .. }) {
            return Reaction { sends, local: Local::Nothing };
        }
        if let UiEvent::KeyDown { keycode, modifiers, repeat, .. } = &event {
            let key = KeyEvent {
                keycode: *keycode,
                modifiers: *modifiers,
                down: true,
                repeat: *repeat,
            };
            if keyboard_capture::quits(&key) {
                return Reaction { sends, local: Local::Quit };
            }
        }
        if let UiEvent::ButtonDown { button, x, y, width, .. } = &event {
            if *button == MouseButton::Left && *y < TOOLBAR_HEIGHT as i32 {
                let hit = client::toolbar_hit(*x, *y, *width);
                let reaction = self.toolbar(hit);
                assert(old(self).clicked(event, hit, *self, reaction));
                return reaction;
            }
        }
        if self.flags.switching {
            let input = match &event {
                UiEvent::KeyDown { .. } => true,
                UiEvent::KeyUp { .. } => true,
                UiEvent::Motion { .. } => true,
                UiEvent::ButtonDown { .. } => true,
                UiEvent::ButtonUp { .. } => true,
                UiEvent::Wheel { .. } => true,
                _ => false,
            };
            if input {
                return Reaction { sends, local: Local::Nothing };
            }
        }
        match event {
            UiEvent::Quit => return Reaction { sends, local: Local::Quit },
            UiEvent::KeyDown { scancode, repeat, .. } => {
                if !repeat {
                    push_key(&mut sends, scancode, true);
                }
            },
            UiEvent::KeyUp { scancode } => {
                push_key(&mut sends, scancode, false);
            },
            UiEvent::Motion { at } => {
                self.flags.motion = at;
            },
            UiEvent::ButtonDown { button, at, .. } => {
                self.flags.motion = None;
                if at.is_some() {
                    push_motion(&mut sends, at);
                    push_button(&mut sends, button, true);
                }
            },
            UiEvent::ButtonUp { button, at } => {
                self.flags.motion = None;
                push_motion(&mut sends, at);
                push_button(&mut sends, button, false);
            },
            UiEvent::Wheel { x, y, flipped } => {
                sends.push(Event::Scroll { x: scroll(x, flipped), y: scroll(y, flipped) });
            },
            UiEvent::FocusLost => {
                self.flags.motion = None;
                sends.push(Event::ReleaseAll);
            },
            UiEvent::Other => {},
        }
        assert(sends@ =~= Self::input_sends(event));
        Reaction { sends, local: Local::Nothing }
    }

    /// The motion that is sent at the end of a round.
    pub open spec fn due_motion(&self) -> Option<Event> {
        match self.flags.motion {
            Some((x, y)) => Some(Event::Motion { x, y }),
            None => None,
        }
    }

    /// The events of this round are done: the last motion is due.
    pub fn flush_motion(&mut self) -> (r: Option<Event>)
        requires
            old(self).wf(),
        ensures
            final(self).wf(),
            r == old(self).due_motion(),
            r matches Some(event) ==> event.valid(),
            final(self).flags == (Flags { motion: None, ..old(self).flags }),
            final(self).notice@ == old(self).notice@,
            final(self).same_stream(old(self)),
    {
        let motion = self.flags.motion;
        self.flags.motion = None;
        match motion {
            Some((x, y)) => Some(Event::Motion { x, y }),
            None => None,
        }
    }

    /// What a picture of this size makes of the session. One of the size that was
    /// announced ends a switch of monitors.
    pub open spec fn framed(
        self,
        width: u32,
        height: u32,
        after: Session,
        r: Result<bool, Error>,
    ) -> bool {
        &&& r is Ok <==> width <= 3840 && height <= 4320
        &&& r matches Err(e) ==> e == Error::ImageBounds && after == self
        &&& r matches Ok(resized) ==> {
            let arrived = self.flags.switch_ack && width == self.desktop.width && height
                == self.desktop.height;
            &&& resized <==> self.size != (width, height)
            &&& after.size == (width, height)
            &&& after.frames == self.frames + 1
            &&& after.total_frames == self.total_frames + 1
            &&& after.flags == if arrived {
                Flags { switching: false, switch_ack: false, ..self.flags }
            } else {
                self.flags
            }
            &&& after.notice@ == self.notice@
            &&& after.desktop == self.desktop
            &&& after.clipboard == self.clipboard
        }
    }

    /// A picture of this size arrives. Returns whether it needs a texture of another
    /// size than the last one did.
    pub fn frame(&mut self, width: u32, height: u32) -> (r: Result<bool, Error>)
        requires
            old(self).wf(),
            old(self).frames < u64::MAX,
            old(self).total_frames < u64::MAX,
        ensures
            final(self).wf(),
            old(self).framed(width, height, *final(self), r),
    {
        if !(width <= 3840 && height <= 4320) {
            return Err(Error::ImageBounds);
        }
        let resized = !(self.size.0 == width && self.size.1 == height);
        self.size = (width, height);
        if self.flags.switch_ack && width == self.desktop.width && height == self.desktop.height {
            self.flags.switching = false;
            self.flags.switch_ack = false;
        }
        self.frames = self.frames + 1;
        self.total_frames = self.total_frames + 1;
        Ok(resized)
    }

    /// A session without any picture for too long, counted from `since`, is given up.
    pub fn check_video(&self, since: u128, now: u128) -> (r: Result<(), Error>)
        ensures
            r is Ok <==> self.total_frames > 0 || now < since + client::FIRST_PICTURE,
            r matches Err(e) ==> e == Error::NoInitialVideo,
    {
        if self.total_frames > 0 || now < since || now - since < client::FIRST_PICTURE {
            Ok(())
        } else {
            Err(Error::NoInitialVideo)
        }
    }

    /// Whether enough pictures were shown.
    pub fn finished(&self, limit: Option<u32>) -> (r: bool)
        ensures
            r <==> (limit matches Some(n) && self.total_frames >= n),
    {
        match limit {
            Some(n) => self.total_frames >= n as u64,
            None => false,
        }
    }

    /// A button does something.
    pub open spec fn offers(&self, index: usize) -> bool {
        match index {
            MONITOR => self.desktop.monitors@.len() > 1,
            AUDIO => self.desktop.audio && !self.flags.muted,
            SEND_TEXT | GET_TEXT => self.transfers(),
            _ => true,
        }
    }

    /// Whether a button of the toolbar is drawn as one that does something.
    pub fn enabled(&self, index: usize) -> (r: bool)
        ensures
            r == self.offers(index),
    {
        match index {
            0 => self.desktop.monitors.len() > 1,
            1 => self.desktop.audio && !self.flags.muted,
            2 | 3 => self.clipboard && self.desktop.clipboard,
            _ => true,
        }
    }

    pub open spec fn title_text(&self, fps: Seq<char>) -> Seq<char> {
        "Teleport — monitor "@ + text::decimal((self.desktop.active_monitor + 1) as nat) + "/"@
            + text::decimal(self.desktop.monitors@.len()) + " · "@ + text::decimal(
            self.size.0 as nat,
        ) + "×"@ + text::decimal(self.size.1 as nat) + " · "@ + fps + " fps · "@ + self.notice@
    }

    /// The title of the window, around a rate of pictures that was worked out
    /// elsewhere. A new count of pictures begins.
    pub fn title(&mut self, fps: &str) -> (r: String)
        requires
            old(self).wf(),
        ensures
            final(self).wf(),
            r@ == old(self).title_text(fps@),
            final(self).frames == 0,
            *final(self) == (Session { frames: 0, ..*old(self) }),
    {
        let mut title = String::new();
        title.push_str("Teleport — monitor ");
        text::push_decimal(&mut title, self.desktop.active_monitor as u64 + 1);
        title.push_str("/");
        text::push_decimal(&mut title, self.desktop.monitors.len() as u64);
        title.push_str(" · ");
        text::push_decimal(&mut title, self.size.0 as u64);
        title.push_str("×");
        text::push_decimal(&mut title, self.size.1 as u64);
        title.push_str(" · ");
        title.push_str(fps);
        title.push_str(" fps · ");
        title.push_str(self.notice.as_str());
        self.frames = 0;
        title
    }
}

fn push_key(sends: &mut Vec<Event>, scancode: Option<usize>, down: bool)
    ensures
        final(sends)@ == old(sends)@ + key_sent(scancode, down),
        key_sent(scancode, down).len() <= 1,
        forall|i: int|
            0 <= i < key_sent(scancode, down).len() ==> (#[trigger] key_sent(
                scancode,
                down,
            )[i]).valid(),
{
    let ghost before = sends@;
    if let Some(scancode) = scancode {
        if let Some(code) = protocol::evdev(scancode) {
            proof {
                protocol::mapped_keys_are_accepted(scancode as int, down);
            }
            sends.push(Event::Key { code, down });
        }
    }
    assert(sends@ =~= before + key_sent(scancode, down));
}

fn push_motion(sends: &mut Vec<Event>, at: Option<(u64, u64)>)
    ensures
        final(sends)@ == old(sends)@ + moved(at),
{
    let ghost before = sends@;
    if let Some((x, y)) = at {
        sends.push(Event::Motion { x, y });
    }
    assert(sends@ =~= before + moved(at));
}

fn push_button(sends: &mut Vec<Event>, button: MouseButton, down: bool)
    ensures
        final(sends)@ == old(sends)@ + button_sent(button, down),
{
    let ghost before = sends@;
    if let Some(button) = client::button(button) {
        sends.push(Event::Button { button, down });
    }
    assert(sends@ =~= before + button_sent(button, down));
}

/// The toolbar is local: whatever is clicked there, the host sees a release of
/// everything held, and at most one request that belongs to the button.
pub proof fn toolbar_gestures_stay_local(session: Session, hit: Option<usize>)
    ensures
        1 <= session.button_sends(hit).len() <= 2,
        session.button_sends(hit)[0] == Event::ReleaseAll,
        session.button_sends(hit).len() == 2 ==> session.button_sends(hit)[1] is SelectMonitor
            || session.button_sends(hit)[1] is ClipboardRequest,
{
}

/// While the monitor is being switched no input reaches the host: it would land on
/// the wrong one. The quit chord and the toolbar still work.
pub proof fn switching_holds_input(session: Session, event: UiEvent, pointer_in_toolbar: bool)
    requires
        session.flags.switching,
        event.is_input(),
        !Session::quits(event),
        !event.on_toolbar(),
    ensures
        session.ignores(event, pointer_in_toolbar),
{
}

/// A window that loses the focus lets go of every key and button on the host, also
/// while the monitor is being switched, and forgets a motion that was not sent.
pub proof fn losing_focus_lets_go(session: Session, pointer_in_toolbar: bool)
    ensures
        !session.ignores(UiEvent::FocusLost, pointer_in_toolbar),
        Session::input_sends(UiEvent::FocusLost) == seq![Event::ReleaseAll],
        session.pending_motion(UiEvent::FocusLost) is None,
{
}

/// A second click on the monitor button does nothing while the first is pending.
pub proof fn one_switch_at_a_time(session: Session)
    requires
        session.can_switch(),
    ensures
        session.button_flags(Some(MONITOR)).switching,
        forall|later: Session|
            later.flags == session.button_flags(Some(MONITOR)) ==> #[trigger] later.button_sends(
                Some(MONITOR),
            ) == seq![Event::ReleaseAll],
{
}

/// A session without a window, which counts pictures and tries what it is asked to.
pub struct Headless {
    pub wanted: u32,
    pub count: u32,
    pub switched: bool,
    pub clipboard_ok: bool,
}

/// The picture at which the scripted input is sent.
pub const SCRIPT_AT: u32 = 5;

/// How many pings the scripted input begins with: several groups of them.
pub const SCRIPT_PINGS: usize = 600;

pub open spec fn pings(n: nat) -> Seq<Event> {
    Seq::new(n, |i: int| Event::Ping)
}

/// The scripted input: pings, a motion, a key that is pressed and released, and one
/// that is left down.
pub open spec fn scripted_input() -> Seq<Event> {
    pings(SCRIPT_PINGS as nat) + seq![
        Event::Motion { x: HALF, y: HALF },
        Event::Key { code: 30, down: true },
        Event::Key { code: 30, down: false },
        Event::Key { code: 29, down: true },
    ]
}

impl Headless {
    pub open spec fn wf(&self) -> bool {
        self.count <= self.wanted
    }

    pub fn start(wanted: u32, audio_wanted: bool, audio_offered: bool) -> (r: Result<Self, Error>)
        ensures
            r is Ok <==> (audio_wanted ==> audio_offered) && wanted > 0,
            r matches Ok(h) ==> h.wanted == wanted && h.count == 0 && !h.switched
                && !h.clipboard_ok && h.wf(),
            r matches Err(e) ==> e == if audio_wanted && !audio_offered {
                Error::NoAudioOffered
            } else {
                Error::FrameCount
            },
    {
        if audio_wanted && !audio_offered {
            return Err(Error::NoAudioOffered);
        }
        if wanted == 0 {
            return Err(Error::FrameCount);
        }
        Ok(Headless { wanted, count: 0, switched: false, clipboard_ok: false })
    }

    pub open spec fn done(&self) -> bool {
        self.count >= self.wanted
    }

    pub fn is_done(&self) -> (r: bool)
        ensures
            r == self.done(),
    {
        self.count >= self.wanted
    }

    /// Before each round: the session may not take for ever.
    pub fn check_time(&self, since: u128, now: u128) -> (r: Result<(), Error>)
        ensures
            r is Ok <==> now < since + client::HEADLESS_LIMIT,
            r matches Err(e) ==> e == Error::HeadlessTimeout,
    {
        if now < since || now - since < client::HEADLESS_LIMIT {
            Ok(())
        } else {
            Err(Error::HeadlessTimeout)
        }
    }

    /// What the script sends once this many pictures have come.
    pub open spec fn script(options: Options, count: int) -> Seq<Event> {
        if count != SCRIPT_AT {
            Seq::empty()
        } else {
            (if options.smoke_switch_monitor {
                seq![Event::SelectMonitor { index: 1 }]
            } else {
                Seq::empty()
            }) + (if options.smoke_input {
                scripted_input()
            } else {
                Seq::empty()
            })
        }
    }

    /// Whether the clipboard is tried at this picture.
    pub open spec fn tries_clipboard(options: Options, count: int) -> bool {
        options.smoke_clipboard && count == SCRIPT_AT
    }

    /// What a picture makes of the check, and what is sent at it.
    pub open spec fn shown(
        self,
        options: Options,
        host_clipboard: bool,
        width: u32,
        height: u32,
        empty: bool,
        after: Headless,
        r: Result<Vec<Event>, Error>,
    ) -> bool {
        &&& r is Ok <==> !empty && (Self::tries_clipboard(options, self.count + 1)
            ==> options.clipboard && host_clipboard)
        &&& r matches Ok(sends) ==> {
            let count = self.count + 1;
            &&& after.wf()
            &&& after.count == count
            &&& after.wanted == self.wanted
            &&& after.switched == (self.switched || options.smoke_switch_monitor
                && count > SCRIPT_AT && height > width)
            &&& after.clipboard_ok == self.clipboard_ok
            &&& Self::tries_clipboard(options, count) ==> {
                &&& sends@.len() >= 2
                &&& sends@[0] matches Event::Clipboard { text }
                &&& text@ == CLIPBOARD_SMOKE@
                &&& sends@[1] == Event::ClipboardRequest
                &&& sends@.skip(2) == Self::script(options, count)
            }
            &&& !Self::tries_clipboard(options, count) ==> sends@ == Self::script(
                options,
                count,
            )
        }
        &&& r matches Err(e) ==> e == if empty {
            Error::EmptyFrame
        } else {
            Error::ClipboardBothEnds
        }
        &&& r is Err ==> after == (Headless {
            count: if empty {
                self.count
            } else {
                (self.count + 1) as u32
            },
            ..self
        })
    }

    /// A picture of this size arrives, with or without data. What is returned is
    /// sent to the host; the first two of it are the clipboard's, where it is tried.
    pub fn frame(
        &mut self,
        options: &Options,
        host_clipboard: bool,
        width: u32,
        height: u32,
        empty: bool,
    ) -> (r: Result<Vec<Event>, Error>)
        requires
            old(self).wf(),
            !old(self).done(),
        ensures
            old(self).shown(*options, host_clipboard, width, height, empty, *final(self), r),
    {
        if empty {
            return Err(Error::EmptyFrame);
        }
        self.count = self.count + 1;
        let ghost count: int = self.count as int;
        let mut sends: Vec<Event> = Vec::new();
        let ghost mut head: Seq<Event> = Seq::empty();
        if options.smoke_clipboard && self.count == SCRIPT_AT {
            if !(options.clipboard && host_clipboard) {
                return Err(Error::ClipboardBothEnds);
            }
            sends.push(Event::Clipboard { text: CLIPBOARD_SMOKE.to_string() });
            sends.push(Event::ClipboardRequest);
            proof {
                head = sends@;
            }
        }
        assert(sends@ =~= head);
        if options.smoke_switch_monitor {
            if self.count == SCRIPT_AT {
                sends.push(Event::SelectMonitor { index: 1 });
            }
            if self.count > SCRIPT_AT && height > width {
                self.switched = true;
            }
        }
        let ghost mut body: Seq<Event> = sends@.skip(head.len() as int);
        assert(sends@ =~= head + body);
        assert(count == SCRIPT_AT ==> body =~= if options.smoke_switch_monitor {
            seq![Event::SelectMonitor { index: 1 }]
        } else {
            Seq::empty()
        });
        assert(count != SCRIPT_AT ==> body =~= Seq::<Event>::empty());
        if options.smoke_input && self.count == SCRIPT_AT {
            let mut i: usize = 0;
            while i < SCRIPT_PINGS
                invariant
                    i <= SCRIPT_PINGS,
                    sends@ =~= head + body + pings(i as nat),
                decreases SCRIPT_PINGS - i,
            {
                sends.push(Event::Ping);
                i += 1;
            }
            sends.push(Event::Motion { x: HALF, y: HALF });
            sends.push(Event::Key { code: 30, down: true });
            sends.push(Event::Key { code: 30, down: false });
            sends.push(Event::Key { code: 29, down: true });
            proof {
                assert(sends@ =~= head + (body + scripted_input()));
                body = body + scripted_input();
            }
        }
        assert(body =~= Self::script(*options, count));
        assert(sends@ =~= head + body);
        assert(sends@.skip(head.len() as int) =~= body);
        Ok(sends)
    }

    /// The host says something: its clipboard is compared with what was sent.
    pub fn update(&mut self, update: Update)
        requires
            old(self).wf(),
        ensures
            final(self).wf(),
            final(self).clipboard_ok == (match update {
                Update::Clipboard { text } => text@ == CLIPBOARD_SMOKE@,
                _ => old(self).clipboard_ok,
            }),
            *final(self) == (Headless { clipboard_ok: final(self).clipboard_ok, ..*old(self) }),
    {
        match update {
            Update::Clipboard { text } => {
                self.clipboard_ok = text::same(text.as_str(), CLIPBOARD_SMOKE);
            },
            _ => {},
        }
    }

    /// Whether all that was tried has worked.
    pub open spec fn passes(
        &self,
        options: Options,
        audio_decoded: bool,
        r: Result<(), Error>,
    ) -> bool {
        &&& r is Ok <==> {
            &&& options.smoke_switch_monitor ==> self.switched
            &&& options.smoke_audio ==> audio_decoded
            &&& options.smoke_clipboard ==> self.clipboard_ok
        }
        &&& r matches Err(e) ==> e == if options.smoke_switch_monitor && !self.switched {
            Error::NoPortraitFrames
        } else if options.smoke_audio && !audio_decoded {
            Error::NoAudioDecoded
        } else {
            Error::ClipboardRoundtrip
        }
    }

    /// All pictures have come: what was tried must have worked.
    pub fn finish(&self, options: &Options, audio_decoded: bool) -> (r: Result<(), Error>)
        ensures
            self.passes(*options, audio_decoded, r),
    {
        if options.smoke_switch_monitor && !self.switched {
            return Err(Error::NoPortraitFrames);
        }
        if options.smoke_audio && !audio_decoded {
            return Err(Error::NoAudioDecoded);
        }
        if options.smoke_clipboard && !self.clipboard_ok {
            return Err(Error::ClipboardRoundtrip);
        }
        Ok(())
    }
}

/// Everything in the script is something the host accepts.
pub proof fn scripted_input_is_valid(options: Options, count: int)
    ensures
        forall|i: int|
            0 <= i < Headless::script(options, count).len() ==> (#[trigger] Headless::script(
                options,
                count,
            )[i]).valid(),
{
    let half: u64 = HALF;
    assert(unit_interval(half));
}

} // verus!
