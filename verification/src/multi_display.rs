//! More monitors of the host, each decoded by itself, on more displays of this
//! machine. The windows, the decoders and the network are the program's; here is
//! what their events mean.
use crate::client::{button, button_number, MouseButton};
use crate::error::Error;
use crate::fullscreen::{Chrome, HEIGHT, REVEAL_HEIGHT};
use crate::geometry::{rect_of, Rect};
use crate::media::Image;
use crate::protocol::{self, key_code, Desktop, DynamicRange, Event, VideoCodec};
use crate::text;
use vstd::prelude::*;

verus! {

/// The most additional displays.
pub const MAX_SCREENS: usize = 4;

/// How long a stream may take until its first picture is shown, in nanoseconds.
pub const FIRST_PICTURE: u128 = 20_000_000_000;

/// Left of here a click on the toolbar asks for the next monitor, right of it for
/// a single display.
pub const NEXT_WIDTH: i32 = 260;

/// What is sent to the host.
#[allow(inconsistent_fields)]
#[derive(Debug, PartialEq, Eq)]
pub enum Command {
    /// Begin or end the stream of a monitor.
    Stream { index: usize, enabled: bool },
    /// The pointer is here on a monitor, as bit patterns of double-precision
    /// numbers.
    Motion { index: usize, x: u64, y: u64 },
    Input(Event),
}

/// What the host has said of a stream.
#[derive(Clone, Copy, PartialEq, Eq, Structural, Debug)]
pub struct Stream {
    pub width: u32,
    pub height: u32,
    pub video_start_group: u64,
}

/// The picture of a screen: none, one that is uploaded to a texture, or one that a
/// presenter of its own shows.
#[derive(Clone, Copy, PartialEq, Eq, Structural, Debug)]
pub enum Shown {
    Nothing,
    Plain,
    Native,
}

/// The layout and the size of a texture.
#[derive(Clone, Copy, PartialEq, Eq, Structural, Debug)]
pub struct Texture {
    pub nv12: bool,
    pub width: u32,
    pub height: u32,
}

/// One window. Times are nanoseconds on the clock of its toolbar.
pub struct Screen {
    /// The number of the window.
    pub id: u32,
    /// The display that it is on, and the monitor that it shows.
    pub local: i32,
    pub remote: usize,
    pub stream: Option<Stream>,
    pub chrome: Chrome,
    /// A decoder and a subscription are at work.
    pub running: bool,
    pub texture: Option<Texture>,
    pub frame: Shown,
    pub size: (u32, u32),
    /// A picture was shown, so that input has a target.
    pub ready: bool,
    pub dirty: bool,
    pub error: Option<String>,
    pub started: u128,
    pub pointer: Option<(i32, i32)>,
    pub buttons: bool,
}

/// What happens at a window. A point comes with its coordinates on the picture,
/// where it lies on it, whether or not the toolbar covers it.
pub enum WindowInput {
    Close,
    Focus,
    Leave,
    Motion { x: i32, y: i32, buttons: bool, at: Option<(u64, u64)> },
    ButtonDown { button: MouseButton, x: i32, y: i32, at: Option<(u64, u64)> },
    ButtonUp { button: MouseButton, x: i32, y: i32, at: Option<(u64, u64)> },
    /// What the wheel's turn amounts to.
    Wheel { events: Vec<Event> },
    KeyDown { scancode: Option<usize>, repeat: bool },
    KeyUp { scancode: Option<usize> },
    Other,
}

pub enum DisplayEvent {
    /// The renderer has lost its textures.
    RendererReset,
    /// A display came, went or moved.
    DisplayChanged,
    Window { id: u32, input: WindowInput },
    Other,
}

pub struct Reaction {
    /// The event was one of these windows', even where nothing came of it.
    pub handled: bool,
    /// What is sent to the host, in this order.
    pub commands: Vec<Command>,
    /// Begin the stream of this screen anew.
    pub restart: Option<usize>,
    /// Forget what is left of the wheel's turns.
    pub reset_wheel: bool,
}

pub enum Draw {
    /// The window shows what it should.
    Idle,
    Paint,
}

// ------------------------------------------------------------------- mapping

/// Another screen shows the same monitor.
pub open spec fn shared(mappings: Seq<usize>, position: int) -> bool {
    0 <= position < mappings.len() && exists|i: int|
        0 <= i < mappings.len() && i != position && #[trigger] mappings[i] == mappings[position]
}

pub fn mapping_shared(mappings: &[usize], position: usize) -> (r: bool)
    ensures
        r == shared(mappings@, position as int),
{
    if position >= mappings.len() {
        return false;
    }
    let mut i: usize = 0;
    while i < mappings.len()
        invariant
            i <= mappings@.len(),
            position < mappings@.len(),
            forall|j: int|
                0 <= j < i && j != position ==> #[trigger] mappings@[j]
                    != mappings@[position as int],
        decreases mappings@.len() - i,
    {
        if i != position && mappings[i] == mappings[position] {
            return true;
        }
        i += 1;
    }
    false
}

/// The monitor after this one; none where there is no other.
pub open spec fn following(current: usize, count: usize) -> Option<usize> {
    if count > 1 && current < count {
        Some(((current + 1) % count as int) as usize)
    } else {
        None
    }
}

pub fn next_monitor(current: usize, count: usize) -> (r: Option<usize>)
    ensures
        r == following(current, count),
{
    if count > 1 && current < count {
        Some((current + 1) % count)
    } else {
        None
    }
}

/// The next monitor exists, and is another one.
pub proof fn next_monitor_is_another(current: usize, count: usize)
    requires
        following(current, count) is Some,
    ensures
        following(current, count)->0 < count,
        following(current, count)->0 != current,
{
    if current + 1 < count {
        vstd::arithmetic::div_mod::lemma_small_mod((current + 1) as nat, count as nat);
    } else {
        vstd::arithmetic::div_mod::lemma_mod_self_0(count as int);
    }
}

/// How many there are without one, and which comes at place `i` then.
pub open spec fn count_without(count: int, one: int) -> int {
    if count <= 0 {
        0
    } else if 0 <= one < count {
        count - 1
    } else {
        count
    }
}

pub open spec fn nth_without(i: int, one: int) -> int {
    if 0 <= one <= i {
        i + 1
    } else {
        i
    }
}

/// How many displays get a monitor: as many as there are of both, and no more than
/// four.
pub open spec fn pairs(displays: int, primary: int, monitors: int, active: int) -> int {
    let locals = count_without(displays, primary);
    let remotes = count_without(monitors, active);
    let both = if locals < remotes {
        locals
    } else {
        remotes
    };
    if both < MAX_SCREENS {
        both
    } else {
        MAX_SCREENS as int
    }
}

/// The displays besides the primary one, in their order, each with one of the
/// monitors besides the active one, in theirs.
pub fn assignments(displays: i32, primary: i32, monitors: usize, active: usize) -> (r: Vec<
    (i32, usize),
>)
    ensures
        r@.len() == pairs(displays as int, primary as int, monitors as int, active as int),
        forall|i: int|
            0 <= i < r@.len() ==> (#[trigger] r@[i]).0 == nth_without(i, primary as int) && r@[i].1
                == nth_without(i, active as int),
{
    let mut out: Vec<(i32, usize)> = Vec::new();
    let mut local: i32 = 0;
    let mut remote: usize = 0;
    while out.len() < MAX_SCREENS && local < displays && remote < monitors
        invariant
            out@.len() <= MAX_SCREENS,
            0 <= local <= displays || displays <= 0 && local == 0,
            0 <= remote <= monitors,
            local == out@.len() + if 0 <= primary < local {
                1int
            } else {
                0
            },
            remote == out@.len() + if active < remote {
                1int
            } else {
                0
            },
            out@.len() <= pairs(displays as int, primary as int, monitors as int, active as int),
            forall|i: int|
                0 <= i < out@.len() ==> (#[trigger] out@[i]).0 == nth_without(i, primary as int)
                    && out@[i].1 == nth_without(i, active as int),
        decreases (displays - local) + (monitors - remote),
    {
        if local == primary {
            local += 1;
        } else if remote == active {
            remote += 1;
        } else {
            out.push((local, remote));
            local += 1;
            remote += 1;
        }
    }
    out
}

/// Every additional display gets a monitor of its own that is not the active one.
pub proof fn assignments_are_distinct(i: int, j: int, primary: int, active: int)
    requires
        0 <= i < j,
    ensures
        nth_without(i, active) != nth_without(j, active),
        nth_without(i, primary) != nth_without(j, primary),
        nth_without(i, active) != active,
        nth_without(i, primary) != primary,
{
}

// ------------------------------------------------------------------- pictures

/// A plane of these bytes can be uploaded.
pub open spec fn plane_valid(available: int, stride: int, row: int, rows: int) -> bool {
    rows > 0 && row <= stride <= i32::MAX && stride * (rows - 1) + row <= available
}

/// What is wrong with a plane of these bytes.
pub open spec fn plane_complaint(available: int, stride: int, row: int, rows: int) -> Option<
    Error,
> {
    if !(rows > 0 && row <= stride <= i32::MAX) {
        Some(Error::ImageStride)
    } else if stride * (rows - 1) + row > usize::MAX {
        Some(Error::PlaneOverflow)
    } else if stride * (rows - 1) + row > available {
        Some(Error::PlaneTruncated)
    } else {
        None
    }
}

fn check_plane(bytes: &Vec<u8>, stride: usize, row: usize, rows: usize) -> (r: Result<(), Error>)
    ensures
        r is Ok <==> plane_valid(bytes@.len() as int, stride as int, row as int, rows as int),
        r is Ok <==> plane_complaint(
            bytes@.len() as int,
            stride as int,
            row as int,
            rows as int,
        ) is None,
        r matches Err(e) ==> plane_complaint(
            bytes@.len() as int,
            stride as int,
            row as int,
            rows as int,
        ) == Some(e),
{
    if !(rows > 0 && stride >= row && stride <= 0x7fff_ffff) {
        return Err(Error::ImageStride);
    }
    let available: usize = bytes.len();
    match stride.checked_mul(rows - 1) {
        Some(full) => match full.checked_add(row) {
            Some(required) => if required <= available {
                Ok(())
            } else {
                Err(Error::PlaneTruncated)
            },
            None => Err(Error::PlaneOverflow),
        },
        None => Err(Error::PlaneOverflow),
    }
}

/// A picture that can be uploaded: each plane holds all its rows.
pub open spec fn frame_valid(frame: Image) -> bool {
    &&& protocol::video_size_valid(frame.width, frame.height)
    &&& match frame.nv12 {
        Some(planes) => {
            &&& frame.width % 2 == 0
            &&& frame.height % 2 == 0
            &&& plane_valid(
                planes.y@.len() as int,
                planes.y_stride as int,
                frame.width as int,
                frame.height as int,
            )
            &&& plane_valid(
                planes.uv@.len() as int,
                planes.uv_stride as int,
                frame.width as int,
                frame.height as int / 2,
            )
        },
        None => plane_valid(
            frame.data@.len() as int,
            frame.stride as int,
            frame.width * 3,
            frame.height as int,
        ),
    }
}

/// What is wrong with a picture: its size first, then its planes in their order.
pub open spec fn frame_complaint(frame: Image) -> Option<Error> {
    let width = frame.width as int;
    let height = frame.height as int;
    if !protocol::video_size_valid(frame.width, frame.height) {
        Some(Error::VideoSize)
    } else {
        match frame.nv12 {
            Some(planes) => {
                let y = plane_complaint(
                    planes.y@.len() as int,
                    planes.y_stride as int,
                    width,
                    height,
                );
                if !(width % 2 == 0 && height % 2 == 0) {
                    Some(Error::OddNv12)
                } else if y is Some {
                    y
                } else {
                    plane_complaint(
                        planes.uv@.len() as int,
                        planes.uv_stride as int,
                        width,
                        height / 2,
                    )
                }
            },
            None => plane_complaint(
                frame.data@.len() as int,
                frame.stride as int,
                width * 3,
                height,
            ),
        }
    }
}

pub fn validate_frame(frame: &Image) -> (r: Result<(), Error>)
    ensures
        r is Ok <==> frame_valid(*frame),
        r matches Err(e) ==> frame_complaint(*frame) == Some(e),
{
    match protocol::validate_video_size(frame.width, frame.height) {
        Ok(()) => {},
        Err(e) => return Err(e),
    }
    match &frame.nv12 {
        Some(planes) => {
            if !(frame.width % 2 == 0 && frame.height % 2 == 0) {
                return Err(Error::OddNv12);
            }
            match check_plane(
                &planes.y,
                planes.y_stride,
                frame.width as usize,
                frame.height as usize,
            ) {
                Ok(()) => {},
                Err(e) => return Err(e),
            }
            check_plane(
                &planes.uv,
                planes.uv_stride,
                frame.width as usize,
                frame.height as usize / 2,
            )
        },
        None => check_plane(
            &frame.data,
            frame.stride,
            frame.width as usize * 3,
            frame.height as usize,
        ),
    }
}

/// The picture belongs to the settings whose first video group is `start`. One whose
/// group is not known does not.
pub open spec fn of_generation(start: u64, group: Option<u64>) -> bool {
    group matches Some(g) && g >= start
}

pub fn video_generation_matches(start: u64, group: Option<u64>) -> (r: bool)
    ensures
        r == of_generation(start, group),
{
    match group {
        Some(group) => group >= start,
        None => false,
    }
}

/// The picture needs no presenter of its own.
pub open spec fn is_plain(frame: Image) -> bool {
    !frame.surface && frame.hdr is None
}

// -------------------------------------------------------------------- screens

/// Half of a number, as a signed number of its width.
pub open spec fn signed_half(v: u32) -> int {
    if v <= i32::MAX {
        v as int / 2
    } else {
        -((0x1_0000_0000 - v) / 2)
    }
}

/// The place of the strip in a window of this size.
pub open spec fn strip_of(window: (u32, u32)) -> Rect {
    rect_of(
        if window.0 < 160 {
            0
        } else {
            signed_half((window.0 - 160) as u32)
        },
        0,
        if window.0 < 160 {
            window.0 as int
        } else {
            160
        },
        REVEAL_HEIGHT as int,
    )
}

/// The strip that reveals the toolbar, in the middle of the upper edge.
pub fn reveal_strip(window: (u32, u32)) -> (r: Rect)
    ensures
        r == strip_of(window),
        r.wf(),
{
    let space: u32 = window.0.saturating_sub(160);
    let left: i32 = if space <= 0x7fff_ffff {
        (space / 2) as i32
    } else {
        -(((0x1_0000_0000u64 - space as u64) / 2) as i32)
    };
    Rect::new(
        left,
        0,
        if window.0 < 160 {
            window.0
        } else {
            160
        },
        REVEAL_HEIGHT,
    )
}

impl Screen {
    pub open spec fn wf(&self) -> bool {
        &&& self.chrome.wf()
        &&& self.remote < usize::MAX
        &&& self.local < i32::MAX
    }

    /// The screen after its stream has ended with an error. The first error stays.
    pub open spec fn halted(self, reason: String) -> Screen {
        Screen {
            error: if self.error is None {
                Some(reason)
            } else {
                self.error
            },
            ready: false,
            running: false,
            frame: Shown::Nothing,
            texture: None,
            dirty: true,
            ..self
        }
    }

    fn halt(&mut self, reason: &String)
        ensures
            *final(self) == old(self).halted(*reason),
    {
        if self.error.is_none() {
            self.error = Some(reason.clone());
        }
        self.ready = false;
        self.running = false;
        self.frame = Shown::Nothing;
        self.texture = None;
        self.dirty = true;
    }

    /// The screen after a failure of its own.
    pub open spec fn failed(self, reason: String, now: u128) -> Screen {
        Screen {
            error: Some(reason),
            ready: false,
            running: false,
            frame: Shown::Nothing,
            texture: None,
            dirty: true,
            chrome: Chrome {
                fullscreen: true,
                visible: true,
                last_interaction: now,
                ..self.chrome
            },
            ..self
        }
    }

    /// The screen before a stream begins.
    pub open spec fn cleared(self, now: u128) -> Screen {
        Screen {
            running: false,
            texture: None,
            frame: Shown::Nothing,
            stream: None,
            ready: false,
            error: None,
            started: now,
            ..self
        }
    }

    /// The screen after the host has said what it streams.
    pub open spec fn announced(self, stream: Stream) -> Screen {
        Screen {
            stream: Some(stream),
            ready: false,
            dirty: true,
            frame: Shown::Nothing,
            texture: None,
            ..self
        }
    }

    /// The screen after its window's event, before that reaches the host.
    pub open spec fn touched(self, input: WindowInput, now: u128) -> Screen {
        let seen = Screen { dirty: true, ..self };
        match input {
            WindowInput::Focus => Screen { pointer: None, buttons: false, ..seen },
            WindowInput::Leave => Screen { pointer: None, ..seen },
            WindowInput::Motion { x, y, buttons, .. } => Screen {
                pointer: Some((x, y)),
                buttons,
                chrome: self.chrome.updated(Some((x, y)), buttons, now),
                ..seen
            },
            WindowInput::ButtonDown { x, y, .. } => Screen {
                pointer: Some((x, y)),
                buttons: true,
                ..seen
            },
            WindowInput::ButtonUp { x, y, .. } => Screen {
                pointer: Some((x, y)),
                buttons: false,
                ..seen
            },
            _ => seen,
        }
    }

    fn touch(&mut self, input: &WindowInput, now: u128)
        requires
            old(self).wf(),
        ensures
            *final(self) == old(self).touched(*input, now),
            final(self).wf(),
    {
        self.dirty = true;
        match input {
            WindowInput::Focus => {
                self.pointer = None;
                self.buttons = false;
            },
            WindowInput::Leave => {
                self.pointer = None;
            },
            WindowInput::Motion { x, y, buttons, .. } => {
                self.pointer = Some((*x, *y));
                self.buttons = *buttons;
                self.chrome.update_at(Some((*x, *y)), *buttons, now);
            },
            WindowInput::ButtonDown { x, y, .. } => {
                self.pointer = Some((*x, *y));
                self.buttons = true;
            },
            WindowInput::ButtonUp { x, y, .. } => {
                self.pointer = Some((*x, *y));
                self.buttons = false;
            },
            _ => {},
        }
    }

    /// The point at this height is the toolbar's and not the picture's.
    pub open spec fn covers(&self, y: i32) -> bool {
        0 <= y < if self.chrome.visible {
            HEIGHT
        } else {
            REVEAL_HEIGHT
        }
    }

    /// A point of the picture that the toolbar does not cover, as it is sent.
    pub open spec fn moved(&self, y: i32, at: Option<(u64, u64)>) -> Seq<Command> {
        match at {
            Some((px, py)) if !self.covers(y) => seq![
                Command::Motion { index: self.remote, x: px, y: py },
            ],
            _ => Seq::empty(),
        }
    }

    /// What a button does: the pointer goes there first. A button that is let go
    /// outside the picture lets go of everything.
    pub open spec fn clicked(
        &self,
        button: MouseButton,
        y: i32,
        at: Option<(u64, u64)>,
        down: bool,
    ) -> Seq<Command> {
        if at is Some && !self.covers(y) {
            self.moved(y, at) + match button_number(button) {
                Some(n) => seq![Command::Input(Event::Button { button: n, down })],
                None => Seq::empty(),
            }
        } else if down {
            Seq::empty()
        } else {
            seq![Command::Input(Event::ReleaseAll)]
        }
    }

    pub open spec fn keyed(scancode: Option<usize>, down: bool) -> Seq<Command> {
        match scancode {
            Some(s) => match key_code(s as int) {
                Some(code) => seq![Command::Input(Event::Key { code, down })],
                None => Seq::empty(),
            },
            None => Seq::empty(),
        }
    }

    /// A step of the wheel, with its motion on this screen's monitor.
    pub open spec fn turned(&self, event: Event) -> Command {
        match event {
            Event::Motion { x, y } => Command::Motion { index: self.remote, x, y },
            other => Command::Input(other),
        }
    }

    /// What the input sends to the host, once a picture is shown.
    pub open spec fn sent(&self, input: WindowInput) -> Seq<Command> {
        match input {
            WindowInput::Motion { y, at, .. } => self.moved(y, at),
            WindowInput::ButtonDown { button, y, at, .. } => self.clicked(button, y, at, true),
            WindowInput::ButtonUp { button, y, at, .. } => self.clicked(button, y, at, false),
            WindowInput::Wheel { events } => events@.map_values(|e: Event| self.turned(e)),
            WindowInput::KeyDown { scancode, repeat: false } => Self::keyed(scancode, true),
            WindowInput::KeyUp { scancode } => Self::keyed(scancode, false),
            _ => Seq::empty(),
        }
    }

    fn send(&self, input: WindowInput) -> (r: Vec<Command>)
        ensures
            r@ == self.sent(input),
    {
        let mut out: Vec<Command> = Vec::new();
        match input {
            WindowInput::Motion { y, at, .. } => {
                if let Some((px, py)) = at {
                    if !self.chrome.blocks_pointer(y) {
                        out.push(Command::Motion { index: self.remote, x: px, y: py });
                    }
                }
            },
            WindowInput::ButtonDown { button: pressed, y, at, .. } => {
                if let Some((px, py)) = at {
                    if !self.chrome.blocks_pointer(y) {
                        out.push(Command::Motion { index: self.remote, x: px, y: py });
                        if let Some(n) = button(pressed) {
                            out.push(Command::Input(Event::Button { button: n, down: true }));
                        }
                    }
                }
            },
            WindowInput::ButtonUp { button: pressed, y, at, .. } => {
                let mut on_picture = false;
                if let Some((px, py)) = at {
                    if !self.chrome.blocks_pointer(y) {
                        on_picture = true;
                        out.push(Command::Motion { index: self.remote, x: px, y: py });
                        if let Some(n) = button(pressed) {
                            out.push(Command::Input(Event::Button { button: n, down: false }));
                        }
                    }
                }
                if !on_picture {
                    out.push(Command::Input(Event::ReleaseAll));
                }
            },
            WindowInput::Wheel { events } => {
                let ghost all = events@;
                let mut events = events;
                while events.len() > 0
                    invariant
                        out@.len() + events@.len() == all.len(),
                        events@ == all.skip(out@.len() as int),
                        forall|i: int|
                            0 <= i < out@.len() ==> #[trigger] out@[i] == self.turned(all[i]),
                    decreases events@.len(),
                {
                    let event = events.remove(0);
                    assert(events@ =~= all.skip(out@.len() as int + 1));
                    match event {
                        Event::Motion { x, y } => {
                            out.push(Command::Motion { index: self.remote, x, y });
                        },
                        other => {
                            out.push(Command::Input(other));
                        },
                    }
                }
            },
            WindowInput::KeyDown { scancode, repeat } => {
                if !repeat {
                    if let Some(s) = scancode {
                        if let Some(code) = protocol::evdev(s) {
                            out.push(Command::Input(Event::Key { code, down: true }));
                        }
                    }
                }
            },
            WindowInput::KeyUp { scancode } => {
                if let Some(s) = scancode {
                    if let Some(code) = protocol::evdev(s) {
                        out.push(Command::Input(Event::Key { code, down: false }));
                    }
                }
            },
            _ => {},
        }
        assert(out@ =~= self.sent(input));
        out
    }

    /// The picture belongs to what the host says it streams, and the decoder has
    /// not been restarted since.
    pub open spec fn accepts(&self, frame: Image, recoveries: u64) -> bool {
        &&& self.is_current(frame)
        &&& self.stream matches Some(stream) && frame.width == stream.width && frame.height
            == stream.height
        &&& frame.decoder_recovery == recoveries
    }

    /// The picture belongs to the settings that the host has last said of the stream.
    pub open spec fn is_current(&self, frame: Image) -> bool {
        self.stream matches Some(stream) && of_generation(
            stream.video_start_group,
            frame.video_group,
        )
    }

    pub fn current(&self, frame: &Image) -> (r: bool)
        ensures
            r == self.is_current(*frame),
    {
        match &self.stream {
            Some(stream) => video_generation_matches(stream.video_start_group, frame.video_group),
            None => false,
        }
    }

    /// Whether [`Screen::draw`] takes this picture.
    pub fn takes(&self, frame: &Image, recoveries: u64) -> (r: bool)
        ensures
            r == self.accepts(*frame, recoveries),
    {
        match &self.stream {
            Some(stream) => self.current(frame) && frame.width == stream.width && frame.height
                == stream.height && frame.decoder_recovery == recoveries,
            None => false,
        }
    }

    /// The screen with this picture.
    pub open spec fn with_frame(self, frame: Image) -> Screen {
        Screen {
            size: (frame.width, frame.height),
            ready: is_plain(frame),
            frame: if is_plain(frame) {
                Shown::Plain
            } else {
                Shown::Native
            },
            dirty: true,
            ..self
        }
    }

    /// The screen after a look at its toolbar and at the decoder.
    pub open spec fn refreshed(
        self,
        frame: Option<Image>,
        recoveries: u64,
        now: u128,
    ) -> Screen {
        let chrome = self.chrome.updated(self.pointer, self.buttons, now);
        let looked = Screen {
            chrome,
            dirty: self.dirty || chrome.visible != self.chrome.visible,
            ..self
        };
        match frame {
            Some(frame) if self.accepts(frame, recoveries) => looked.with_frame(frame),
            _ => looked,
        }
    }

    /// The stream is late: no error, and no picture either.
    pub open spec fn late(&self, now: u128) -> bool {
        self.error is None && !self.ready && now >= self.started + FIRST_PICTURE
    }

    /// What is drawn of a picture, and the window then.
    pub open spec fn drawn(
        self,
        frame: Option<&Image>,
        recoveries: u64,
        now: u128,
        after: Screen,
        r: Result<Draw, Error>,
    ) -> bool {
        let taken = frame matches Some(f) && self.accepts(*f, recoveries);
        let value = match frame {
            Some(f) => Some(*f),
            None => None,
        };
        let next = self.refreshed(value, recoveries, now);
        &&& r is Err <==> self.late(now) || taken
            && !protocol::video_size_valid(frame->0.width, frame->0.height) || taken
            && is_plain(*frame->0) && !frame_valid(*frame->0)
        &&& r matches Err(e) ==> if self.late(now) {
            e == Error::NoConfirmedVideo && after == self
        } else {
            &&& frame_complaint(*frame->0) == Some(e)
            &&& after == if protocol::video_size_valid(frame->0.width, frame->0.height) {
                Screen { dirty: false, ..next }
            } else {
                self.refreshed(None, recoveries, now)
            }
        }
        &&& r matches Ok(draw) ==> (draw is Paint <==> next.dirty) && after == (Screen {
            dirty: false,
            ..next
        })
    }

    /// The next frame of the window, with what the decoder has for it: its picture,
    /// and how often it was restarted. Only pictures that can be uploaded are.
    pub fn draw(&mut self, frame: Option<&Image>, recoveries: u64, now: u128) -> (r: Result<
        Draw,
        Error,
    >)
        requires
            old(self).wf(),
        ensures
            final(self).wf(),
            old(self).drawn(frame, recoveries, now, *final(self), r),
    {
        if self.error.is_none() && !self.ready && now >= self.started && now - self.started
            >= FIRST_PICTURE {
            return Err(Error::NoConfirmedVideo);
        }
        let shifted = self.chrome.update_at(self.pointer, self.buttons, now);
        if shifted {
            self.dirty = true;
        }
        if let Some(frame) = frame {
            if self.takes(frame, recoveries) {
                match protocol::validate_video_size(frame.width, frame.height) {
                    Ok(()) => {},
                    Err(e) => return Err(e),
                }
                let plain = !frame.surface && frame.hdr.is_none();
                self.size = (frame.width, frame.height);
                self.ready = plain;
                self.frame = if plain {
                    Shown::Plain
                } else {
                    Shown::Native
                };
                self.dirty = true;
                if plain {
                    match validate_frame(frame) {
                        Ok(()) => {},
                        Err(e) => {
                            self.dirty = false;
                            return Err(e);
                        },
                    }
                }
            }
        }
        if self.dirty {
            self.dirty = false;
            Ok(Draw::Paint)
        } else {
            Ok(Draw::Idle)
        }
    }

    /// Whether a texture of another kind or size is needed.
    pub open spec fn uploaded(
        self,
        nv12: bool,
        width: u32,
        height: u32,
        after: Screen,
        r: bool,
    ) -> bool {
        &&& r <==> self.texture != Some(Texture { nv12, width, height })
        &&& after == (Screen {
            texture: Some(Texture { nv12, width, height }),
            ..self
        })
    }

    /// A picture of this layout is uploaded. Returns whether it needs a new texture.
    pub fn upload(&mut self, nv12: bool, width: u32, height: u32) -> (r: bool)
        ensures
            old(self).uploaded(nv12, width, height, *final(self), r),
    {
        let fits = match &self.texture {
            Some(texture) => texture.nv12 == nv12 && texture.width == width && texture.height
                == height,
            None => false,
        };
        self.texture = Some(Texture { nv12, width, height });
        !fits
    }

    /// The presenter has shown the picture, or has not yet.
    pub fn presented(&mut self, shown: bool)
        ensures
            *final(self) == (Screen {
                ready: shown,
                dirty: old(self).dirty || !shown,
                ..*old(self)
            }),
    {
        self.ready = shown;
        if !shown {
            self.dirty = true;
        }
    }

    /// What the toolbar says.
    pub fn label(&self) -> (r: String)
        requires
            self.wf(),
            0 <= self.local,
        ensures
            r@ == "Local "@ + text::decimal((self.local + 1) as nat) + " / Remote "@
                + text::decimal((self.remote + 1) as nat) + " - Next"@,
    {
        let mut out = String::new();
        out.push_str("Local ");
        text::push_decimal(&mut out, (self.local + 1) as u64);
        out.push_str(" / Remote ");
        text::push_decimal(&mut out, self.remote as u64 + 1);
        out.push_str(" - Next");
        assert(out@ =~= "Local "@ + text::decimal((self.local + 1) as nat) + " / Remote "@
            + text::decimal((self.remote + 1) as nat) + " - Next"@);
        out
    }
}

// ------------------------------------------------------------------- displays

/// The additional displays, and the format of their streams.
pub struct Displays {
    pub screens: Vec<Screen>,
    pub codec: VideoCodec,
    pub dynamic_range: DynamicRange,
}

/// The monitors that the screens show.
pub open spec fn remotes(screens: Seq<Screen>) -> Seq<usize> {
    screens.map_values(|s: Screen| s.remote)
}

pub open spec fn end_of(screen: Screen) -> Command {
    Command::Stream { index: screen.remote, enabled: false }
}

/// Everything that is held is let go, and every stream ends.
pub open spec fn closings(screens: Seq<Screen>) -> Seq<Command> {
    seq![Command::Input(Event::ReleaseAll)] + screens.map_values(|s: Screen| end_of(s))
}

/// The left button goes down on a toolbar that shows.
pub open spec fn on_toolbar(screen: Screen, input: WindowInput) -> bool {
    input matches WindowInput::ButtonDown { button, y, .. } && button == MouseButton::Left
        && screen.chrome.visible && 0 <= y < HEIGHT
}

/// A screen with this monitor is at work.
pub open spec fn served(screens: Seq<Screen>, index: usize) -> bool {
    exists|i: int|
        0 <= i < screens.len() && (#[trigger] screens[i]).remote == index && screens[i].running
}

/// The streams that no screen needs any more, of those that failed.
pub open spec fn ended(screens: Seq<Screen>, failed: Seq<usize>) -> Seq<Command>
    decreases failed.len(),
{
    if failed.len() == 0 {
        Seq::empty()
    } else if served(screens, failed.last()) {
        ended(screens, failed.drop_last())
    } else {
        ended(screens, failed.drop_last()).push(
            Command::Stream { index: failed.last(), enabled: false },
        )
    }
}

impl Displays {
    pub open spec fn wf(&self) -> bool {
        forall|i: int| 0 <= i < self.screens@.len() ==> (#[trigger] self.screens@[i]).wf()
    }

    /// The first screen with this window.
    pub open spec fn is_at(&self, id: u32, position: int) -> bool {
        &&& 0 <= position < self.screens@.len()
        &&& self.screens@[position].id == id
        &&& forall|j: int| 0 <= j < position ==> (#[trigger] self.screens@[j]).id != id
    }

    pub open spec fn has(&self, id: u32) -> bool {
        exists|i: int| 0 <= i < self.screens@.len() && (#[trigger] self.screens@[i]).id == id
    }

    /// Only this screen has changed, to this.
    pub open spec fn with(self, position: int, screen: Screen, after: Displays) -> bool {
        after.screens@ == self.screens@.update(position, screen) && after.codec == self.codec
            && after.dynamic_range == self.dynamic_range
    }

    /// No screen is left.
    pub open spec fn emptied(self, after: Displays) -> bool {
        after.screens@.len() == 0 && after.codec == self.codec && after.dynamic_range
            == self.dynamic_range
    }

    pub fn new(codec: VideoCodec, dynamic_range: DynamicRange) -> (r: Self)
        ensures
            r.wf(),
            r.screens@.len() == 0,
            r.codec == codec,
            r.dynamic_range == dynamic_range,
    {
        Displays { screens: Vec::new(), codec, dynamic_range }
    }

    pub fn active(&self) -> (r: bool)
        ensures
            r <==> self.screens@.len() > 0,
    {
        self.screens.len() > 0
    }

    /// The windows once the stream of a monitor has ended.
    pub open spec fn ended(self, index: usize, reason: String, after: Displays) -> bool {
        &&& after.codec == self.codec
        &&& after.dynamic_range == self.dynamic_range
        &&& after.screens@.len() == self.screens@.len()
        &&& forall|i: int|
            0 <= i < self.screens@.len() ==> #[trigger] after.screens@[i] == if self.screens@[i].remote == index {
                self.screens@[i].halted(reason)
            } else {
                self.screens@[i]
            }
    }

    /// The host has ended the stream of this monitor.
    pub fn stopped(&mut self, index: usize, reason: String)
        requires
            old(self).wf(),
        ensures
            final(self).wf(),
            old(self).ended(index, reason, *final(self)),
    {
        let ghost before = self.screens@;
        let mut i: usize = 0;
        while i < self.screens.len()
            invariant
                i <= before.len(),
                self.screens@.len() == before.len(),
                self.codec == old(self).codec,
                self.dynamic_range == old(self).dynamic_range,
                forall|j: int|
                    0 <= j < i ==> #[trigger] self.screens@[j] == if before[j].remote == index {
                        before[j].halted(reason)
                    } else {
                        before[j]
                    },
                forall|j: int| i <= j < before.len() ==> #[trigger] self.screens@[j] == before[j],
            decreases before.len() - i,
        {
            if self.screens[i].remote == index {
                self.screens[i].halt(&reason);
            }
            i += 1;
        }
    }

    /// Closes every window. Returns what is sent to the host.
    pub fn stop(&mut self) -> (r: Vec<Command>)
        ensures
            final(self).wf(),
            old(self).emptied(*final(self)),
            r@ == closings(old(self).screens@),
    {
        let mut out: Vec<Command> = Vec::new();
        out.push(Command::Input(Event::ReleaseAll));
        let mut i: usize = 0;
        while i < self.screens.len()
            invariant
                i <= self.screens@.len(),
                out@ == seq![Command::Input(Event::ReleaseAll)] + self.screens@.take(
                    i as int,
                ).map_values(|s: Screen| end_of(s)),
            decreases self.screens@.len() - i,
        {
            out.push(Command::Stream { index: self.screens[i].remote, enabled: false });
            i += 1;
            assert(out@ =~= seq![Command::Input(Event::ReleaseAll)] + self.screens@.take(
                i as int,
            ).map_values(|s: Screen| end_of(s)));
        }
        assert(self.screens@.take(i as int) =~= self.screens@);
        self.screens = Vec::new();
        out
    }

    /// Which display shows which monitor, after all windows were closed.
    pub open spec fn planned(
        self,
        multimonitor: bool,
        displays: i32,
        primary: i32,
        desktop: Desktop,
        after: Displays,
        r: (Vec<Command>, Result<Vec<(i32, usize)>, Error>),
    ) -> bool {
        &&& self.emptied(after)
        &&& r.0@ == closings(self.screens@)
        &&& r.1 is Ok <==> multimonitor
        &&& r.1 matches Err(e) ==> e == Error::NoIndependentStreams
        &&& r.1 matches Ok(plan) ==> {
            &&& plan@.len() == pairs(
                displays as int,
                primary as int,
                desktop.monitors@.len() as int,
                desktop.active_monitor as int,
            )
            &&& forall|i: int|
                0 <= i < plan@.len() ==> (#[trigger] plan@[i]).0 == nth_without(
                    i,
                    primary as int,
                ) && plan@[i].1 == nth_without(i, desktop.active_monitor as int)
        }
    }

    /// Begins anew: what there was ends, and the displays that there are get
    /// monitors. The program opens a window for each.
    pub fn start(
        &mut self,
        multimonitor: bool,
        displays: i32,
        primary: i32,
        desktop: &Desktop,
    ) -> (r: (Vec<Command>, Result<Vec<(i32, usize)>, Error>))
        ensures
            final(self).wf(),
            old(self).planned(multimonitor, displays, primary, *desktop, *final(self), r),
    {
        let commands = self.stop();
        if !multimonitor {
            return (commands, Err(Error::NoIndependentStreams));
        }
        (
            commands,
            Ok(assignments(displays, primary, desktop.monitors.len(), desktop.active_monitor)),
        )
    }

    /// The windows once another was opened for this monitor.
    pub open spec fn opened(
        self,
        id: u32,
        local: i32,
        remote: usize,
        after: Displays,
        r: Command,
    ) -> bool {
        &&& after.codec == self.codec
        &&& after.dynamic_range == self.dynamic_range
        &&& after.screens@.len() == self.screens@.len() + 1
        &&& after.screens@.drop_last() == self.screens@
        &&& after.screens@.last() == (Screen {
            id,
            local,
            remote,
            stream: None,
            chrome: after.screens@.last().chrome,
            running: true,
            texture: None,
            frame: Shown::Nothing,
            size: (0, 0),
            ready: false,
            dirty: true,
            error: None,
            started: 0,
            pointer: None,
            buttons: false,
        })
        &&& after.screens@.last().chrome.fullscreen
        &&& after.screens@.last().chrome.visible
        &&& after.screens@.last().chrome.last_interaction == 0
        &&& r == (Command::Stream { index: remote, enabled: true })
    }

    /// A window was opened and its decoder is at work.
    pub fn open(&mut self, id: u32, local: i32, remote: usize) -> (r: Command)
        requires
            old(self).wf(),
            remote < usize::MAX,
            local < i32::MAX,
        ensures
            final(self).wf(),
            old(self).opened(id, local, remote, *final(self), r),
    {
        let mut chrome = Chrome::new();
        chrome.set_fullscreen_at(true, 0);
        let ghost before = self.screens@;
        self.screens.push(
            Screen {
                id,
                local,
                remote,
                stream: None,
                chrome,
                running: true,
                texture: None,
                frame: Shown::Nothing,
                size: (0, 0),
                ready: false,
                dirty: true,
                error: None,
                started: 0,
                pointer: None,
                buttons: false,
            },
        );
        assert(self.screens@.drop_last() =~= before);
        Command::Stream { index: remote, enabled: true }
    }

    /// The windows once a stream was asked for again.
    pub open spec fn again(self, position: usize, after: Displays, r: Command) -> bool {
        &&& self.with(
            position as int,
            Screen { running: true, dirty: true, ..self.screens@[position as int] },
            after,
        )
        &&& r == (Command::Stream {
            index: self.screens@[position as int].remote,
            enabled: true,
        })
    }

    /// The new decoder of a screen is at work.
    pub fn restarted(&mut self, position: usize) -> (r: Command)
        requires
            old(self).wf(),
            position < old(self).screens@.len(),
        ensures
            final(self).wf(),
            old(self).again(position, *final(self), r),
    {
        self.screens[position].running = true;
        self.screens[position].dirty = true;
        assert(self.screens@ =~= old(self).screens@.update(
            position as int,
            Screen { running: true, dirty: true, ..old(self).screens@[position as int] },
        ));
        Command::Stream { index: self.screens[position].remote, enabled: true }
    }

    /// The description of a stream is what was asked for.
    pub open spec fn describes(&self, index: usize, desktop: Desktop) -> bool {
        desktop.version == protocol::VERSION && desktop.codec == self.codec && desktop.dynamic_range
            == self.dynamic_range && desktop.active_monitor == index
    }

    /// The windows once a monitor was described.
    pub open spec fn informed(
        self,
        index: usize,
        desktop: Desktop,
        after: Displays,
        r: Result<(), Error>,
    ) -> bool {
        &&& after.codec == self.codec
        &&& after.dynamic_range == self.dynamic_range
        &&& r is Ok <==> protocol::video_size_valid(desktop.width, desktop.height)
            && self.describes(index, desktop)
        &&& r matches Err(e) ==> e == if protocol::video_size_valid(desktop.width, desktop.height) {
            Error::AuxiliaryMetadata
        } else {
            Error::VideoSize
        }
        &&& r is Err ==> after == self
        &&& r is Ok ==> after.screens@.len() == self.screens@.len() && forall|i: int|
            0 <= i < self.screens@.len() ==> #[trigger] after.screens@[i] == if self.screens@[i].remote == index {
                self.screens@[i].announced(
                    Stream {
                        width: desktop.width,
                        height: desktop.height,
                        video_start_group: desktop.video_start_group,
                    },
                )
            } else {
                self.screens@[i]
            }
    }

    /// The host says what it streams of this monitor.
    pub fn update(&mut self, index: usize, desktop: &Desktop) -> (r: Result<(), Error>)
        requires
            old(self).wf(),
        ensures
            final(self).wf(),
            old(self).informed(index, *desktop, *final(self), r),
    {
        match protocol::validate_video_size(desktop.width, desktop.height) {
            Ok(()) => {},
            Err(e) => return Err(e),
        }
        if !(desktop.version == protocol::VERSION && desktop.codec == self.codec
            && desktop.dynamic_range == self.dynamic_range && desktop.active_monitor == index) {
            return Err(Error::AuxiliaryMetadata);
        }
        let stream = Stream {
            width: desktop.width,
            height: desktop.height,
            video_start_group: desktop.video_start_group,
        };
        let ghost before = self.screens@;
        let mut i: usize = 0;
        while i < self.screens.len()
            invariant
                i <= before.len(),
                self.screens@.len() == before.len(),
                self.codec == old(self).codec,
                self.dynamic_range == old(self).dynamic_range,
                forall|j: int|
                    0 <= j < i ==> #[trigger] self.screens@[j] == if before[j].remote == index {
                        before[j].announced(stream)
                    } else {
                        before[j]
                    },
                forall|j: int| i <= j < before.len() ==> #[trigger] self.screens@[j] == before[j],
            decreases before.len() - i,
        {
            if self.screens[i].remote == index {
                self.screens[i].stream = Some(stream);
                self.screens[i].ready = false;
                self.screens[i].dirty = true;
                self.screens[i].frame = Shown::Nothing;
                self.screens[i].texture = None;
            }
            i += 1;
        }
        Ok(())
    }

    fn find(&self, id: u32) -> (r: Option<usize>)
        ensures
            r matches Some(position) ==> self.is_at(id, position as int),
            r is None <==> !self.has(id),
    {
        let mut i: usize = 0;
        while i < self.screens.len()
            invariant
                i <= self.screens@.len(),
                forall|j: int| 0 <= j < i ==> (#[trigger] self.screens@[j]).id != id,
            decreases self.screens@.len() - i,
        {
            if self.screens[i].id == id {
                return Some(i);
            }
            i += 1;
        }
        None
    }

    fn mappings(&self) -> (r: Vec<usize>)
        ensures
            r@ == remotes(self.screens@),
    {
        let mut out: Vec<usize> = Vec::new();
        let mut i: usize = 0;
        while i < self.screens.len()
            invariant
                i <= self.screens@.len(),
                out@ == remotes(self.screens@.take(i as int)),
            decreases self.screens@.len() - i,
        {
            out.push(self.screens[i].remote);
            i += 1;
            assert(out@ =~= remotes(self.screens@.take(i as int)));
        }
        assert(self.screens@.take(i as int) =~= self.screens@);
        out
    }

    /// What an event at the window of one screen does.
    pub open spec fn stepped(
        self,
        position: int,
        input: WindowInput,
        monitors: usize,
        now: u128,
        after: Displays,
        r: Reaction,
    ) -> bool {
        let screen = self.screens@[position].touched(input, now);
        let next = following(screen.remote, monitors);
        let release = seq![Command::Input(Event::ReleaseAll)];
        &&& r.handled
        &&& r.reset_wheel == (input is Focus)
        &&& if input is Close {
            self.emptied(after) && r.commands@ == closings(self.screens@) && r.restart is None
        } else if on_toolbar(screen, input) {
            if input->ButtonDown_x >= NEXT_WIDTH {
                &&& self.emptied(after)
                &&& r.commands@ == release + closings(self.screens@)
                &&& r.restart is None
            } else if screen.ready && next is Some {
                &&& self.with(position, (Screen { remote: next->0, ..screen }).cleared(now), after)
                &&& r.commands@ == if shared(remotes(self.screens@), position) {
                    release
                } else {
                    release.push(end_of(screen))
                }
                &&& r.restart == Some(position as usize)
            } else {
                self.with(position, screen, after) && r.commands@ == release && r.restart is None
            }
        } else {
            &&& self.with(position, screen, after)
            &&& r.commands@ == (if input is Focus {
                release
            } else {
                Seq::empty()
            }) + (if screen.ready {
                screen.sent(input)
            } else {
                Seq::empty()
            })
            &&& r.restart is None
        }
    }

    /// What an event makes of the windows, and what the program is to do.
    pub open spec fn happened(
        self,
        event: DisplayEvent,
        monitors: usize,
        now: u128,
        after: Displays,
        r: Reaction,
    ) -> bool {
        &&& match event {
            DisplayEvent::RendererReset => {
                &&& !r.handled && r.commands@.len() == 0 && r.restart is None && !r.reset_wheel
                &&& after.codec == self.codec
                &&& after.dynamic_range == self.dynamic_range
                &&& after.screens@.len() == self.screens@.len()
                &&& forall|i: int|
                    0 <= i < self.screens@.len() ==> #[trigger] after.screens@[i]
                        == (Screen { texture: None, dirty: true, ..self.screens@[i] })
            },
            DisplayEvent::DisplayChanged => {
                &&& !r.handled && r.restart is None && !r.reset_wheel
                &&& r.commands@ == closings(self.screens@)
                &&& self.emptied(after)
            },
            DisplayEvent::Window { id, input } => if self.has(id) {
                exists|position: int| #[trigger]
                    self.is_at(id, position) && self.stepped(
                        position,
                        input,
                        monitors,
                        now,
                        after,
                        r,
                    )
            } else {
                &&& !r.handled && r.commands@.len() == 0 && r.restart is None && !r.reset_wheel
                &&& after == self
            },
            DisplayEvent::Other => {
                &&& !r.handled && r.commands@.len() == 0 && r.restart is None && !r.reset_wheel
                &&& after == self
            },
        }
    }

    /// Something happens, at `now` on the clock of the window's toolbar; the host
    /// has this many monitors.
    pub fn event(&mut self, event: DisplayEvent, monitors: usize, now: u128) -> (r: Reaction)
        requires
            old(self).wf(),
        ensures
            final(self).wf(),
            old(self).happened(event, monitors, now, *final(self), r),
    {
        match event {
            DisplayEvent::RendererReset => {
                let ghost before = self.screens@;
                let mut i: usize = 0;
                while i < self.screens.len()
                    invariant
                        i <= before.len(),
                        self.screens@.len() == before.len(),
                        self.codec == old(self).codec,
                        self.dynamic_range == old(self).dynamic_range,
                        forall|j: int|
                            0 <= j < i ==> #[trigger] self.screens@[j] == (Screen {
                                texture: None,
                                dirty: true,
                                ..before[j]
                            }),
                        forall|j: int|
                            i <= j < before.len() ==> #[trigger] self.screens@[j] == before[j],
                    decreases before.len() - i,
                {
                    self.screens[i].texture = None;
                    self.screens[i].dirty = true;
                    i += 1;
                }
                Reaction { handled: false, commands: Vec::new(), restart: None, reset_wheel: false }
            },
            DisplayEvent::DisplayChanged => {
                let commands = self.stop();
                Reaction { handled: false, commands, restart: None, reset_wheel: false }
            },
            DisplayEvent::Window { id, input } => match self.find(id) {
                Some(position) => {
                    let r = self.step(position, input, monitors, now);
                    assert(old(self).is_at(id, position as int));
                    r
                },
                None => Reaction {
                    handled: false,
                    commands: Vec::new(),
                    restart: None,
                    reset_wheel: false,
                },
            },
            DisplayEvent::Other => Reaction {
                handled: false,
                commands: Vec::new(),
                restart: None,
                reset_wheel: false,
            },
        }
    }

    fn step(&mut self, position: usize, input: WindowInput, monitors: usize, now: u128) -> (r:
        Reaction)
        requires
            old(self).wf(),
            position < old(self).screens@.len(),
        ensures
            final(self).wf(),
            old(self).stepped(position as int, input, monitors, now, *final(self), r),
    {
        let ghost screens = self.screens@;
        if let WindowInput::Close = input {
            let commands = self.stop();
            return Reaction { handled: true, commands, restart: None, reset_wheel: false };
        }
        self.screens[position].touch(&input, now);
        let ghost screen = screens[position as int].touched(input, now);
        assert(self.screens@ =~= screens.update(position as int, screen));
        assert(closings(self.screens@) =~= closings(screens));
        assert(remotes(self.screens@) =~= remotes(screens));
        if let WindowInput::ButtonDown { button: MouseButton::Left, x, y, .. } = input {
            if self.screens[position].chrome.visible() && 0 <= y && y < HEIGHT as i32 {
                let mut commands: Vec<Command> = Vec::new();
                commands.push(Command::Input(Event::ReleaseAll));
                let mut restart: Option<usize> = None;
                if x >= NEXT_WIDTH {
                    let mut rest = self.stop();
                    commands.append(&mut rest);
                    assert(commands@ =~= seq![Command::Input(Event::ReleaseAll)] + closings(
                        screens,
                    ));
                } else if self.screens[position].ready {
                    let current: usize = self.screens[position].remote;
                    if let Some(next) = next_monitor(current, monitors) {
                        proof {
                            next_monitor_is_another(current, monitors);
                        }
                        let mappings = self.mappings();
                        if !mapping_shared(mappings.as_slice(), position) {
                            commands.push(Command::Stream { index: current, enabled: false });
                        }
                        self.screens[position].remote = next;
                        self.screens[position].running = false;
                        self.screens[position].texture = None;
                        self.screens[position].frame = Shown::Nothing;
                        self.screens[position].stream = None;
                        self.screens[position].ready = false;
                        self.screens[position].error = None;
                        self.screens[position].started = now;
                        restart = Some(position);
                        assert(self.screens@ =~= screens.update(
                            position as int,
                            (Screen { remote: next, ..screen }).cleared(now),
                        ));
                    }
                }
                return Reaction { handled: true, commands, restart, reset_wheel: false };
            }
        }
        assert(!on_toolbar(screen, input));
        let mut commands: Vec<Command> = Vec::new();
        let reset_wheel = match &input {
            WindowInput::Focus => {
                commands.push(Command::Input(Event::ReleaseAll));
                true
            },
            _ => false,
        };
        if self.screens[position].ready {
            let mut sent = self.screens[position].send(input);
            commands.append(&mut sent);
        }
        Reaction { handled: true, commands, restart: None, reset_wheel }
    }

    /// A screen could not be drawn.
    pub fn fail(&mut self, position: usize, reason: String, now: u128)
        requires
            old(self).wf(),
            position < old(self).screens@.len(),
        ensures
            final(self).wf(),
            old(self).with(
                position as int,
                old(self).screens@[position as int].failed(reason, now),
                *final(self),
            ),
    {
        self.screens[position].error = Some(reason);
        self.screens[position].ready = false;
        self.screens[position].running = false;
        self.screens[position].dirty = true;
        self.screens[position].frame = Shown::Nothing;
        self.screens[position].texture = None;
        self.screens[position].chrome.set_fullscreen_at(true, now);
        assert(self.screens@ =~= old(self).screens@.update(
            position as int,
            old(self).screens@[position as int].failed(reason, now),
        ));
    }

    /// After some screens could not be drawn: the streams that no other screen needs
    /// end.
    pub fn release(&self, failed: &[usize]) -> (r: Vec<Command>)
        ensures
            r@ == ended(self.screens@, failed@),
    {
        let mut out: Vec<Command> = Vec::new();
        let mut k: usize = 0;
        assert(failed@.take(0) =~= Seq::<usize>::empty());
        while k < failed.len()
            invariant
                k <= failed@.len(),
                out@ == ended(self.screens@, failed@.take(k as int)),
            decreases failed@.len() - k,
        {
            let index: usize = failed[k];
            let mut needed = false;
            let mut i: usize = 0;
            while i < self.screens.len()
                invariant
                    i <= self.screens@.len(),
                    needed <==> exists|j: int|
                        0 <= j < i && (#[trigger] self.screens@[j]).remote == index
                            && self.screens@[j].running,
                decreases self.screens@.len() - i,
            {
                if self.screens[i].remote == index && self.screens[i].running {
                    needed = true;
                }
                i += 1;
            }
            assert(failed@.take(k + 1).drop_last() =~= failed@.take(k as int));
            assert(needed == served(self.screens@, index));
            if !needed {
                out.push(Command::Stream { index, enabled: false });
            }
            k += 1;
        }
        assert(failed@.take(k as int) =~= failed@);
        out
    }
}

// ----------------------------------------------------------------------- laws

/// A monitor that another screen shows goes on streaming when one screen turns to
/// the next.
pub proof fn shared_streams_stay(
    before: Displays,
    position: int,
    input: WindowInput,
    monitors: usize,
    now: u128,
    after: Displays,
    r: Reaction,
    i: int,
)
    requires
        0 <= position < before.screens@.len(),
        before.stepped(position, input, monitors, now, after, r),
        shared(remotes(before.screens@), position),
        r.restart is Some,
        0 <= i < r.commands@.len(),
    ensures
        r.commands@[i] is Input,
{
}

/// A click on the toolbar reaches the host as nothing but the release of what is
/// held and the end of streams.
pub proof fn toolbar_clicks_stay_local(
    before: Displays,
    position: int,
    input: WindowInput,
    monitors: usize,
    now: u128,
    after: Displays,
    r: Reaction,
    i: int,
)
    requires
        0 <= position < before.screens@.len(),
        on_toolbar(before.screens@[position].touched(input, now), input),
        before.stepped(position, input, monitors, now, after, r),
        0 <= i < r.commands@.len(),
    ensures
        r.commands@[i] == Command::Input(Event::ReleaseAll) || (r.commands@[i] matches
            Command::Stream { enabled, .. } && !enabled),
{
    let rest = closings(before.screens@);
    if i >= 1 && input->ButtonDown_x >= NEXT_WIDTH {
        assert(r.commands@[i] == rest[i - 1]);
    }
}

/// A screen without a picture sends no input to the host.
pub proof fn input_waits_for_a_picture(
    before: Displays,
    position: int,
    input: WindowInput,
    monitors: usize,
    now: u128,
    after: Displays,
    r: Reaction,
    i: int,
)
    requires
        0 <= position < before.screens@.len(),
        !before.screens@[position].ready,
        before.stepped(position, input, monitors, now, after, r),
        0 <= i < r.commands@.len(),
    ensures
        r.commands@[i] == Command::Input(Event::ReleaseAll) || (r.commands@[i] matches
            Command::Stream { enabled, .. } && !enabled),
{
    let rest = closings(before.screens@);
    if input is Close {
        assert(r.commands@[i] == rest[i]);
    } else if i >= 1 && on_toolbar(before.screens@[position].touched(input, now), input)
        && input->ButtonDown_x >= NEXT_WIDTH {
        assert(r.commands@[i] == rest[i - 1]);
    }
}

/// When the windows close, the stream of each ends.
pub proof fn closing_ends_every_stream(screens: Seq<Screen>, i: int)
    requires
        0 <= i < screens.len(),
    ensures
        closings(screens).contains(Command::Stream { index: screens[i].remote, enabled: false }),
{
    assert(closings(screens)[i + 1] == end_of(screens[i]));
}

} // verus!
