//! The client: what it checks before it connects, the window that connects, and
//! the session that follows. The loops themselves, the windows and the network are
//! the program's; here is what they do next.
use crate::error::Error;
use crate::geometry::{rect_of, Rect};
use crate::protocol::{self, Desktop};
use crate::text;
use vstd::prelude::*;

pub mod session;

verus! {

pub struct Options {
    /// Host name or address and UDP port.
    pub address: String,
    /// The pairing file of the host.
    pub pairing_file: String,
    /// Decode this many frames without a window.
    pub headless_frames: Option<u32>,
    pub software_renderer: bool,
    pub software_decoder: bool,
    /// Close the window after this many frames.
    pub exit_after_frames: Option<u32>,
    pub smoke_input: bool,
    pub smoke_switch_monitor: bool,
    pub smoke_audio: bool,
    pub smoke_clipboard: bool,
    /// Retry dropped sessions until the window is closed.
    pub reconnect: bool,
    /// Permit text transfers by the toolbar.
    pub clipboard: bool,
    pub mute: bool,
    /// Select this monitor on connection.
    pub monitor: Option<usize>,
}

pub const TOOLBAR_HEIGHT: u32 = 44;

/// The buttons of the toolbar, from the left.
pub const MONITOR: usize = 0;

pub const AUDIO: usize = 1;

pub const SEND_TEXT: usize = 2;

pub const GET_TEXT: usize = 3;

pub const FULLSCREEN: usize = 4;

pub const RECONNECT: usize = 5;

pub const DISCONNECT: usize = 6;

pub const BUTTONS: usize = 7;

/// How long a session waits for its first picture, in nanoseconds.
pub const FIRST_PICTURE: u128 = 15_000_000_000;

/// How long a headless session may take, in nanoseconds.
pub const HEADLESS_LIMIT: u128 = 20_000_000_000;

/// How long to wait before connecting again, in nanoseconds: where retries are
/// wanted, and where they are not.
pub const RETRY_SOON: u128 = 3_000_000_000;

pub const RETRY_LATE: u128 = 86_400_000_000_000;

/// How many input events share one group on the wire.
pub const GROUP_LENGTH: u64 = 256;

/// The text that a headless session sends through both clipboards.
pub const CLIPBOARD_SMOKE: &'static str = "Teleport clipboard smoke ✓\nline 2";

/// The double-precision pattern of one half.
pub const HALF: u64 = 0x3FE0_0000_0000_0000;

// ---------------------------------------------------------------- connecting

/// An address must not look like a URL.
pub fn check_address(address: &str) -> (r: Result<(), Error>)
    ensures
        r is Ok <==> !address@.contains('/') && !address@.contains('@'),
        r matches Err(e) ==> e == Error::UseHostPort,
{
    if text::contains(address, '/') || text::contains(address, '@') {
        Err(Error::UseHostPort)
    } else {
        Ok(())
    }
}

/// The address of a session.
pub open spec fn url_of(address: Seq<char>, token: Seq<char>) -> Seq<char> {
    "moqt://"@ + address + "/teleport/"@ + token
}

/// Where a session is requested.
pub fn session_url(address: &str, token: &str) -> (r: String)
    ensures
        r@ == url_of(address@, token@),
{
    let mut url = String::new();
    url.push_str("moqt://");
    url.push_str(address);
    url.push_str("/teleport/");
    url.push_str(token);
    assert(url@ =~= url_of(address@, token@));
    url
}

/// A desktop that this client can show.
pub open spec fn desktop_valid(desktop: Desktop) -> bool {
    desktop.version == protocol::VERSION && 2 <= desktop.width <= 3840 && 2 <= desktop.height <= 4320
}

pub fn check_desktop(desktop: &Desktop) -> (r: Result<(), Error>)
    ensures
        r is Ok <==> desktop_valid(*desktop),
        r == Err::<(), Error>(Error::IncompatibleVersion) <==> desktop.version
            != protocol::VERSION,
        r == Err::<(), Error>(Error::DesktopSize) <==> desktop.version == protocol::VERSION
            && !desktop_valid(*desktop),
{
    if desktop.version != protocol::VERSION {
        return Err(Error::IncompatibleVersion);
    }
    if !(2 <= desktop.width && desktop.width <= 3840 && 2 <= desktop.height && desktop.height
        <= 4320) {
        return Err(Error::DesktopSize);
    }
    Ok(())
}

/// The event with this number opens a new group.
pub open spec fn opens_group(sequence: u64) -> bool {
    sequence > 0 && sequence % GROUP_LENGTH == 0
}

/// The count of input events that were sent.
pub struct InputCounter {
    pub next: u64,
}

impl InputCounter {
    pub fn new() -> (r: Self)
        ensures
            r.next == 0,
    {
        InputCounter { next: 0 }
    }

    /// The number of the next event, and whether it opens a new group.
    pub fn advance(&mut self) -> (r: (u64, bool))
        requires
            old(self).next < u64::MAX,
        ensures
            r.0 == old(self).next,
            r.1 <==> opens_group(r.0),
            final(self).next == old(self).next + 1,
    {
        let sequence: u64 = self.next;
        self.next = sequence + 1;
        (sequence, sequence > 0 && sequence % GROUP_LENGTH == 0)
    }
}

/// What follows a session.
pub enum Next {
    Stop,
    /// Connect again, and say why.
    Again(String),
    Fail,
}

/// How a session ended: whether the user asked for another, or with an error.
pub enum Ended {
    Closed { again: bool },
    Failed { message: String },
}

/// What follows a session that ended so.
pub open spec fn follows(ended: Ended, reconnect: bool, headless: bool, next: Next) -> bool {
    match ended {
        Ended::Closed { again } => {
            &&& !again ==> next is Stop
            &&& again ==> (next matches Next::Again(why) && why@
                == "Reconnecting at your request"@)
        },
        Ended::Failed { message } => {
            &&& reconnect && !headless ==> next == Next::Again(message)
            &&& !(reconnect && !headless) ==> next is Fail
        },
    }
}

pub fn after_session(ended: Ended, reconnect: bool, headless: bool) -> (r: Next)
    ensures
        follows(ended, reconnect, headless, r),
{
    match ended {
        Ended::Closed { again } => if again {
            Next::Again("Reconnecting at your request".to_string())
        } else {
            Next::Stop
        },
        Ended::Failed { message } => if reconnect && !headless {
            Next::Again(message)
        } else {
            Next::Fail
        },
    }
}

/// The window that is shown while a connection is being made. Times are
/// nanoseconds since it was opened.
pub struct ConnectWindow {
    pub status: String,
    pub retry_at: u128,
    /// An attempt is under way.
    pub connecting: bool,
}

/// What the user or the clock asks of the window.
#[derive(Clone, Copy, PartialEq, Eq, Structural, Debug)]
pub enum ConnectStep {
    Wait,
    /// Give up the attempt that is under way, if one is.
    Abandon,
    /// Begin an attempt.
    Connect,
    /// Close the window, and give up the attempt.
    Cancel,
}

pub open spec fn retry_button() -> Rect {
    rect_of(18, 205, 150, 42)
}

pub open spec fn cancel_button() -> Rect {
    rect_of(188, 205, 150, 42)
}

impl ConnectWindow {
    pub fn new(previous: Option<&str>) -> (r: Self)
        ensures
            r.status@ == (match previous {
                Some(status) => status@,
                None => "Connecting securely to your host…"@,
            }),
            r.retry_at == 0,
            !r.connecting,
    {
        let status = match previous {
            Some(status) => status.to_string(),
            None => "Connecting securely to your host…".to_string(),
        };
        ConnectWindow { status, retry_at: 0, connecting: false }
    }

    /// What a click at this point makes of the window, and what it asks for.
    pub open spec fn clicked(
        self,
        x: i32,
        y: i32,
        now: u128,
        after: ConnectWindow,
        step: ConnectStep,
    ) -> bool {
        if retry_button().holds(x as int, y as int) {
            &&& step == ConnectStep::Abandon
            &&& after.status@ == "Retrying connection…"@
            &&& after.retry_at == now
            &&& !after.connecting
        } else if cancel_button().holds(x as int, y as int) {
            &&& step == ConnectStep::Cancel
            &&& after.status@ == self.status@
            &&& after.retry_at == self.retry_at
            &&& !after.connecting
        } else {
            step == ConnectStep::Wait && after == self
        }
    }

    /// When the next attempt begins by itself, after one that failed at `now`.
    pub open spec fn next_attempt(now: u128, reconnect: bool) -> u128 {
        crate::clock::later(
            now,
            if reconnect {
                RETRY_SOON
            } else {
                RETRY_LATE
            },
        )
    }

    /// An attempt begins by itself at `now`.
    pub open spec fn begins(&self, now: u128) -> bool {
        !self.connecting && now >= self.retry_at
    }

    /// The left button goes down at this point.
    pub fn click(&mut self, x: i32, y: i32, now: u128) -> (r: ConnectStep)
        ensures
            old(self).clicked(x, y, now, *final(self), r),
    {
        if Rect::new(18, 205, 150, 42).contains_point(x, y) {
            self.connecting = false;
            self.retry_at = now;
            self.status = "Retrying connection…".to_string();
            return ConnectStep::Abandon;
        }
        if Rect::new(188, 205, 150, 42).contains_point(x, y) {
            self.connecting = false;
            return ConnectStep::Cancel;
        }
        ConnectStep::Wait
    }

    /// The window is closed, or escape is pressed.
    pub fn close(&mut self) -> (r: ConnectStep)
        ensures
            r == ConnectStep::Cancel,
            !final(self).connecting,
            final(self).status@ == old(self).status@,
            final(self).retry_at == old(self).retry_at,
    {
        self.connecting = false;
        ConnectStep::Cancel
    }

    /// The clock shows `now`. At most one attempt is under way.
    pub fn tick(&mut self, now: u128) -> (r: ConnectStep)
        ensures
            r == ConnectStep::Connect <==> old(self).begins(now),
            r == ConnectStep::Connect || r == ConnectStep::Wait,
            final(self).connecting == (old(self).connecting || r == ConnectStep::Connect),
            final(self).status@ == old(self).status@,
            final(self).retry_at == old(self).retry_at,
    {
        if !self.connecting && now >= self.retry_at {
            self.connecting = true;
            ConnectStep::Connect
        } else {
            ConnectStep::Wait
        }
    }

    /// The attempt has failed.
    pub fn failed(&mut self, message: String, now: u128, reconnect: bool)
        ensures
            !final(self).connecting,
            final(self).status == message,
            final(self).retry_at == Self::next_attempt(now, reconnect),
    {
        self.connecting = false;
        self.status = message;
        self.retry_at = crate::clock::after(
            now,
            if reconnect {
                RETRY_SOON
            } else {
                RETRY_LATE
            },
        );
    }

    /// The lines of text in the window.
    pub fn lines(&self, address: &str, reconnect: bool) -> (r: (String, String, &'static str))
        ensures
            r.0@ == "Connecting to "@ + address@,
            r.1@ == text::clipped(self.status@, 85),
            r.2@ == if reconnect {
                "Retries automatically. Close this window or press Esc to cancel."@
            } else {
                "Close this window to return. Use --reconnect for automatic retries."@
            },
    {
        let mut first = String::new();
        first.push_str("Connecting to ");
        first.push_str(address);
        assert(first@ =~= "Connecting to "@ + address@);
        (
            first,
            text::clip(self.status.as_str(), 85),
            if reconnect {
                "Retries automatically. Close this window or press Esc to cancel."
            } else {
                "Close this window to return. Use --reconnect for automatic retries."
            },
        )
    }
}

// ------------------------------------------------------------------ toolbar

/// The place of a button in a window of this width.
pub open spec fn button_rect(index: int, width: int) -> Rect {
    let left = width * index / 7;
    let right = width * (index + 1) / 7;
    rect_of(
        left + 2,
        2,
        if right - left - 4 < 1 {
            1
        } else {
            right - left - 4
        },
        TOOLBAR_HEIGHT - 4,
    )
}

pub fn toolbar_rect(index: usize, width: u32) -> (r: Rect)
    requires
        index < BUTTONS,
        width * 7 <= u32::MAX,
    ensures
        r == button_rect(index as int, width as int),
        r.wf(),
{
    assert(width * index <= width * 6 && width * (index + 1) <= width * 7) by (nonlinear_arith)
        requires
            index < 7,
    ;
    assert(width * (index + 1) == width * index + width) by (nonlinear_arith);
    let left: u32 = width * index as u32 / 7;
    let right: u32 = width * (index as u32 + 1) / 7;
    let space: u32 = right.saturating_sub(left + 4);
    Rect::new(
        left as i32 + 2,
        2,
        if space < 1 {
            1
        } else {
            space
        },
        TOOLBAR_HEIGHT - 4,
    )
}

/// The first button that the point lies on.
pub open spec fn button_at(x: int, y: int, width: int, index: int) -> bool {
    &&& 0 <= index < BUTTONS
    &&& button_rect(index, width).holds(x, y)
    &&& forall|j: int| 0 <= j < index ==> !(#[trigger] button_rect(j, width)).holds(x, y)
}

pub fn toolbar_hit(x: i32, y: i32, width: u32) -> (r: Option<usize>)
    requires
        width * 7 <= u32::MAX,
    ensures
        r matches Some(index) ==> button_at(x as int, y as int, width as int, index as int),
        r is None ==> forall|j: int|
            0 <= j < BUTTONS ==> !(#[trigger] button_rect(j, width as int)).holds(
                x as int,
                y as int,
            ),
{
    let mut index: usize = 0;
    while index < BUTTONS
        invariant
            index <= BUTTONS,
            width * 7 <= u32::MAX,
            forall|j: int|
                0 <= j < index ==> !(#[trigger] button_rect(j, width as int)).holds(
                    x as int,
                    y as int,
                ),
        decreases BUTTONS - index,
    {
        if toolbar_rect(index, width).contains_point(x, y) {
            return Some(index);
        }
        index += 1;
    }
    None
}

/// No two buttons overlap in a window that is wide enough for them to have places
/// of their own.
pub proof fn buttons_do_not_overlap(a: int, b: int, width: int, x: int, y: int)
    requires
        0 <= a < b < BUTTONS,
        35 <= width <= 600_000_000,
        button_rect(a, width).holds(x, y),
    ensures
        !button_rect(b, width).holds(x, y),
{
    assert(width * (a + 1) <= width * b) by (nonlinear_arith)
        requires
            a + 1 <= b,
            width >= 0,
    ;
    assert(width * (a + 1) == width * a + width) by (nonlinear_arith);
    assert(0 <= width * a && width * b <= width * 6) by (nonlinear_arith)
        requires
            0 <= a < b <= 6,
            width >= 0,
    ;
}

/// What the toolbar leaves of a window.
pub open spec fn space_left(window: (u32, u32)) -> (u32, u32) {
    (
        window.0,
        if window.1 <= TOOLBAR_HEIGHT {
            1
        } else {
            (window.1 - TOOLBAR_HEIGHT) as u32
        },
    )
}

/// The space below the toolbar, for the desktop.
pub fn desktop_area(window: (u32, u32)) -> (r: (u32, u32))
    ensures
        r == space_left(window),
{
    let height: u32 = window.1.saturating_sub(TOOLBAR_HEIGHT);
    (
        window.0,
        if height < 1 {
            1
        } else {
            height
        },
    )
}

/// A point of the window, from the corner below the toolbar.
pub open spec fn point_below(x: i32, y: i32) -> Option<(i32, i32)> {
    if y < TOOLBAR_HEIGHT {
        None
    } else {
        Some((x, (y - TOOLBAR_HEIGHT) as i32))
    }
}

/// A point of the window as a point of that space; none for points on the toolbar.
pub fn desktop_point(x: i32, y: i32) -> (r: Option<(i32, i32)>)
    ensures
        r == point_below(x, y),
{
    if y < TOOLBAR_HEIGHT as i32 {
        None
    } else {
        Some((x, y - TOOLBAR_HEIGHT as i32))
    }
}

/// The number that the protocol gives to a mouse button.
#[derive(Clone, Copy, PartialEq, Eq, Structural, Debug)]
pub enum MouseButton {
    Left,
    Middle,
    Right,
    Other,
}

pub open spec fn button_number(button: MouseButton) -> Option<u8> {
    match button {
        MouseButton::Left => Some(1),
        MouseButton::Middle => Some(2),
        MouseButton::Right => Some(3),
        MouseButton::Other => None,
    }
}

pub fn button(pressed: MouseButton) -> (r: Option<u8>)
    ensures
        r == button_number(pressed),
{
    match pressed {
        MouseButton::Left => Some(1),
        MouseButton::Middle => Some(2),
        MouseButton::Right => Some(3),
        MouseButton::Other => None,
    }
}

} // verus!
