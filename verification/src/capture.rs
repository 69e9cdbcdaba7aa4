//! The host's desktop: where pictures come from, and how input reaches it. The
//! portal, the X server and the pipeline are the program's; here is what they are
//! asked to do, and what is held down meanwhile.
use crate::error::Error;
use crate::protocol::Event;
use crate::text;
use std::collections::BTreeSet;
use vstd::prelude::*;

verus! {

/// The kinds of input that an X server can be made to see.
pub const KEY_PRESS: u8 = 2;

pub const KEY_RELEASE: u8 = 3;

pub const BUTTON_PRESS: u8 = 4;

pub const BUTTON_RELEASE: u8 = 5;

/// Where a desktop can come from.
#[derive(Clone, Copy, PartialEq, Eq, Structural, Debug)]
pub enum Source {
    Test,
    Portal,
    X11,
}

#[derive(Clone, Copy, PartialEq, Eq, Structural, Debug)]
pub enum Backend {
    /// The portal's stream: a descriptor, and a node there.
    Portal { fd: i32, node: u32 },
    X11,
    Test,
}

/// What is asked of the backend.
#[allow(inconsistent_fields)]
#[derive(Clone, Copy, PartialEq, Eq, Structural, Debug)]
pub enum Action {
    /// A key, or a button, of the portal's keyboard or pointer.
    PortalKey { code: i32, down: bool },
    PortalButton { code: i32, down: bool },
    PortalAxis { vertical: bool, steps: i32 },
    /// An event of this kind for the X server.
    Fake { kind: u8, detail: u8 },
    /// The pointer goes to these parts of the way to the right and to the bottom,
    /// given as bit patterns of double-precision numbers.
    Motion { x: u64, y: u64, right: u32, bottom: u32 },
}

/// The desktop is a Wayland session.
pub open spec fn on_wayland(session_type: Option<Seq<char>>, wayland_display: bool) -> bool {
    session_type == Some("wayland"@) || wayland_display
}

/// Where the pictures come from, for this wish in this session.
pub open spec fn resolved(
    source: Seq<char>,
    session: Option<Seq<char>>,
    wayland_display: bool,
) -> Result<Source, Error> {
    let wayland = on_wayland(session, wayland_display);
    if source == "auto"@ {
        Ok(
            if wayland {
                Source::Portal
            } else {
                Source::X11
            },
        )
    } else if source == "test"@ {
        Ok(Source::Test)
    } else if source == "portal"@ {
        Ok(Source::Portal)
    } else if source == "x11"@ {
        if wayland {
            Err(Error::X11OnWayland)
        } else {
            Ok(Source::X11)
        }
    } else {
        Err(Error::UnknownSource)
    }
}

/// The source with this name, given the type of the session and whether it has a
/// Wayland display.
pub fn resolve(source: &str, session_type: Option<&str>, wayland_display: bool) -> (r: Result<
    Source,
    Error,
>)
    ensures
        r == resolved(
            source@,
            match session_type {
                Some(s) => Some(s@),
                None => None,
            },
            wayland_display,
        ),
{
    proof {
        reveal_strlit("auto");
        reveal_strlit("test");
        reveal_strlit("portal");
        reveal_strlit("x11");
    }
    let wayland_session = match session_type {
        Some(s) => text::same(s, "wayland"),
        None => false,
    };
    let wayland = wayland_session || wayland_display;
    if text::same(source, "auto") {
        if wayland {
            Ok(Source::Portal)
        } else {
            Ok(Source::X11)
        }
    } else if text::same(source, "test") {
        Ok(Source::Test)
    } else if text::same(source, "portal") {
        Ok(Source::Portal)
    } else if text::same(source, "x11") {
        if wayland {
            Err(Error::X11OnWayland)
        } else {
            Ok(Source::X11)
        }
    } else {
        Err(Error::UnknownSource)
    }
}

/// What the portal granted: devices, and the first of its streams with the size that
/// it reports, if any.
#[derive(Clone, Copy)]
pub struct PortalReply {
    pub keyboard: bool,
    pub pointer: bool,
    pub stream: bool,
    pub size: Option<(i32, i32)>,
}

/// The size of the monitor that the portal has granted with all that is needed.
pub open spec fn granted(reply: PortalReply) -> Result<(u32, u32), Error> {
    if !(reply.keyboard && reply.pointer) {
        Err(Error::PortalPermission)
    } else if !reply.stream {
        Err(Error::NoPortalMonitor)
    } else {
        match reply.size {
            None => Err(Error::NoPortalSize),
            Some((width, height)) => if width > 0 && height > 0 {
                Ok((width as u32, height as u32))
            } else {
                Err(Error::PortalSize)
            },
        }
    }
}

/// The size of the monitor that the portal granted.
pub fn portal_size(reply: &PortalReply) -> (r: Result<(u32, u32), Error>)
    ensures
        r == granted(*reply),
{
    if !(reply.keyboard && reply.pointer) {
        return Err(Error::PortalPermission);
    }
    if !reply.stream {
        return Err(Error::NoPortalMonitor);
    }
    match reply.size {
        None => Err(Error::NoPortalSize),
        Some((width, height)) => if width > 0 && height > 0 {
            Ok((width as u32, height as u32))
        } else {
            Err(Error::PortalSize)
        },
    }
}

/// What must be forgotten once the actions have been carried out.
#[derive(Clone, Copy, PartialEq, Eq, Structural, Debug)]
pub enum Settle {
    Nothing,
    Key(u16),
    Button(u8),
}

pub struct Reaction {
    pub actions: Vec<Action>,
    pub settle: Settle,
}

/// The desktop, with the keys and buttons that are held down.
pub struct Capture {
    pub width: u32,
    pub height: u32,
    pub backend: Backend,
    pub keys: BTreeSet<u16>,
    pub buttons: BTreeSet<u8>,
}

/// A key goes down or up.
pub open spec fn key_action(backend: Backend, code: u16, down: bool) -> Seq<Action> {
    match backend {
        Backend::Portal { .. } => seq![Action::PortalKey { code: code as i32, down }],
        Backend::X11 => seq![
            Action::Fake {
                kind: if down {
                    KEY_PRESS
                } else {
                    KEY_RELEASE
                },
                detail: (code + 8) as u8,
            },
        ],
        Backend::Test => Seq::empty(),
    }
}

/// The code of a button for the portal: left, middle and right.
pub open spec fn portal_button(button: u8) -> i32 {
    if button == 1 {
        272
    } else if button == 2 {
        274
    } else {
        273
    }
}

pub open spec fn button_action(backend: Backend, button: u8, down: bool) -> Seq<Action> {
    match backend {
        Backend::Portal { .. } => seq![Action::PortalButton { code: portal_button(button), down }],
        Backend::X11 => seq![
            Action::Fake {
                kind: if down {
                    BUTTON_PRESS
                } else {
                    BUTTON_RELEASE
                },
                detail: button,
            },
        ],
        Backend::Test => Seq::empty(),
    }
}

/// A button of the wheel is pressed and let go, so many times.
pub open spec fn turns(button: u8, count: int) -> Seq<Action> {
    Seq::new(
        (2 * count) as nat,
        |i: int|
            Action::Fake {
                kind: if i % 2 == 0 {
                    BUTTON_PRESS
                } else {
                    BUTTON_RELEASE
                },
                detail: button,
            },
    )
}

pub open spec fn magnitude(v: i32) -> int {
    if v < 0 {
        -v
    } else {
        v as int
    }
}

/// The wheel turns. On the portal's axis, down is positive.
pub open spec fn scroll_actions(backend: Backend, x: i32, y: i32) -> Seq<Action> {
    match backend {
        Backend::Portal { .. } => (if y != 0 {
            seq![Action::PortalAxis { vertical: true, steps: (-y) as i32 }]
        } else {
            Seq::empty()
        }) + (if x != 0 {
            seq![Action::PortalAxis { vertical: false, steps: x }]
        } else {
            Seq::empty()
        }),
        Backend::X11 => turns(
            if y > 0 {
                4
            } else {
                5
            },
            magnitude(y),
        ) + turns(
            if x > 0 {
                7
            } else {
                6
            },
            magnitude(x),
        ),
        Backend::Test => Seq::empty(),
    }
}

pub open spec fn motion_actions(
    backend: Backend,
    x: u64,
    y: u64,
    width: u32,
    height: u32,
) -> Seq<Action> {
    if backend == Backend::Test {
        Seq::empty()
    } else {
        seq![Action::Motion { x, y, right: (width - 1) as u32, bottom: (height - 1) as u32 }]
    }
}

/// The keys below `bound` that are held are let go, in their order.
pub open spec fn key_releases(backend: Backend, held: Set<u16>, bound: int) -> Seq<Action>
    decreases bound,
{
    if bound <= 0 {
        Seq::empty()
    } else if held.contains((bound - 1) as u16) {
        key_releases(backend, held, bound - 1) + key_action(backend, (bound - 1) as u16, false)
    } else {
        key_releases(backend, held, bound - 1)
    }
}

pub open spec fn button_releases(backend: Backend, held: Set<u8>, bound: int) -> Seq<Action>
    decreases bound,
{
    if bound <= 0 {
        Seq::empty()
    } else if held.contains((bound - 1) as u8) {
        button_releases(backend, held, bound - 1) + button_action(backend, (bound - 1) as u8, false)
    } else {
        button_releases(backend, held, bound - 1)
    }
}

fn push_key(out: &mut Vec<Action>, backend: Backend, code: u16, down: bool)
    requires
        code <= 127,
    ensures
        final(out)@ == old(out)@ + key_action(backend, code, down),
{
    match backend {
        Backend::Portal { .. } => out.push(Action::PortalKey { code: code as i32, down }),
        Backend::X11 => out.push(
            Action::Fake {
                kind: if down {
                    KEY_PRESS
                } else {
                    KEY_RELEASE
                },
                detail: (code + 8) as u8,
            },
        ),
        Backend::Test => {},
    }
    assert(out@ =~= old(out)@ + key_action(backend, code, down));
}

fn push_button(out: &mut Vec<Action>, backend: Backend, button: u8, down: bool)
    ensures
        final(out)@ == old(out)@ + button_action(backend, button, down),
{
    match backend {
        Backend::Portal { .. } => {
            let code: i32 = if button == 1 {
                272
            } else if button == 2 {
                274
            } else {
                273
            };
            out.push(Action::PortalButton { code, down })
        },
        Backend::X11 => out.push(
            Action::Fake {
                kind: if down {
                    BUTTON_PRESS
                } else {
                    BUTTON_RELEASE
                },
                detail: button,
            },
        ),
        Backend::Test => {},
    }
    assert(out@ =~= old(out)@ + button_action(backend, button, down));
}

fn push_turns(out: &mut Vec<Action>, button: u8, count: u32)
    ensures
        final(out)@ == old(out)@ + turns(button, count as int),
{
    let mut i: u32 = 0;
    assert(out@ =~= old(out)@ + turns(button, 0));
    while i < count
        invariant
            i <= count,
            out@ == old(out)@ + turns(button, i as int),
        decreases count - i,
    {
        out.push(Action::Fake { kind: BUTTON_PRESS, detail: button });
        out.push(Action::Fake { kind: BUTTON_RELEASE, detail: button });
        i += 1;
        assert(out@ =~= old(out)@ + turns(button, i as int));
    }
}

impl Capture {
    /// Only keys and buttons that the protocol has are held, and there is a desktop.
    pub open spec fn wf(&self) -> bool {
        &&& self.width >= 1 && self.height >= 1
        &&& forall|k: u16| #[trigger] self.keys@.contains(k) ==> 1 <= k <= 127
        &&& forall|b: u8| #[trigger] self.buttons@.contains(b) ==> 1 <= b <= 3
    }

    /// A desktop of this size with nothing held.
    pub fn new(backend: Backend, width: u32, height: u32) -> (r: Self)
        requires
            width >= 1,
            height >= 1,
        ensures
            r.wf(),
            r.width == width,
            r.height == height,
            r.backend == backend,
            r.keys@ == Set::<u16>::empty(),
            r.buttons@ == Set::<u8>::empty(),
    {
        Capture { width, height, backend, keys: BTreeSet::new(), buttons: BTreeSet::new() }
    }

    pub open spec fn backend_name(backend: Backend) -> Seq<char> {
        match backend {
            Backend::Test => "test"@,
            Backend::Portal { .. } => "Wayland portal"@,
            Backend::X11 => "X11"@,
        }
    }

    pub fn name(&self) -> (r: &'static str)
        ensures
            r@ == Self::backend_name(self.backend),
    {
        match self.backend {
            Backend::Test => "test",
            Backend::Portal { .. } => "Wayland portal",
            Backend::X11 => "X11",
        }
    }

    /// The pipeline's source of pictures.
    pub open spec fn source_text(backend: Backend) -> Seq<char> {
        match backend {
            Backend::Test => "videotestsrc is-live=true pattern=ball"@,
            Backend::Portal { fd, node } => "pipewiresrc fd="@ + text::decimal(fd as nat)
                + " path="@ + text::decimal(node as nat) + " do-timestamp=true ! video/x-raw"@,
            Backend::X11 => "ximagesrc use-damage=false show-pointer=true"@,
        }
    }

    pub fn pipeline_source(&self) -> (r: String)
        requires
            self.backend matches Backend::Portal { fd, .. } ==> fd >= 0,
        ensures
            r@ == Self::source_text(self.backend),
    {
        match self.backend {
            Backend::Test => "videotestsrc is-live=true pattern=ball".to_string(),
            Backend::Portal { fd, node } => {
                let mut out = String::new();
                out.push_str("pipewiresrc fd=");
                text::push_decimal(&mut out, fd as u64);
                out.push_str(" path=");
                text::push_decimal(&mut out, node as u64);
                out.push_str(" do-timestamp=true ! video/x-raw");
                assert(out@ =~= Self::source_text(self.backend));
                out
            },
            Backend::X11 => "ximagesrc use-damage=false show-pointer=true".to_string(),
        }
    }

    /// All that is held is let go, the keys first.
    pub open spec fn releases(&self) -> Seq<Action> {
        key_releases(self.backend, self.keys@, 128) + button_releases(
            self.backend,
            self.buttons@,
            4,
        )
    }

    /// What a valid event asks of the backend. A key that is held is not pressed
    /// again, and only one that is held is let go.
    pub open spec fn reacts(&self, event: Event) -> Seq<Action> {
        match event {
            Event::Key { code, down } => if self.keys@.contains(code) == down {
                Seq::empty()
            } else {
                key_action(self.backend, code, down)
            },
            Event::Button { button, down } => if self.buttons@.contains(button) == down {
                Seq::empty()
            } else {
                button_action(self.backend, button, down)
            },
            Event::Motion { x, y } => motion_actions(self.backend, x, y, self.width, self.height),
            Event::Scroll { x, y } => scroll_actions(self.backend, x, y),
            Event::ReleaseAll => self.releases(),
            _ => Seq::empty(),
        }
    }

    /// What is forgotten after it was carried out.
    pub open spec fn settles(&self, event: Event) -> Settle {
        match event {
            Event::Key { code, down } if !down && self.keys@.contains(code) => Settle::Key(code),
            Event::Button { button, down } if !down && self.buttons@.contains(
                button,
            ) => Settle::Button(button),
            _ => Settle::Nothing,
        }
    }

    /// The keys that are held once an event was taken. One that is let go counts as
    /// held until that was carried out.
    pub open spec fn keys_after(&self, event: Event) -> Set<u16> {
        match event {
            Event::Key { code, down } if down => self.keys@.insert(code),
            Event::ReleaseAll => Set::empty(),
            _ => self.keys@,
        }
    }

    pub open spec fn buttons_after(&self, event: Event) -> Set<u8> {
        match event {
            Event::Button { button, down } if down => self.buttons@.insert(button),
            Event::ReleaseAll => Set::empty(),
            _ => self.buttons@,
        }
    }

    /// What an event makes of the desktop, and what the program is to do for it.
    pub open spec fn took(self, event: Event, after: Capture, r: Result<Reaction, Error>) -> bool {
        &&& r is Ok <==> event.valid()
        &&& r matches Err(e) ==> e == event.complaint() && after == self
        &&& r matches Ok(reaction) ==> {
            &&& reaction.actions@ == self.reacts(event)
            &&& reaction.settle == self.settles(event)
            &&& after.keys@ == self.keys_after(event)
            &&& after.buttons@ == self.buttons_after(event)
            &&& after.width == self.width
            &&& after.height == self.height
            &&& after.backend == self.backend
        }
    }

    /// An event arrives. Returns what the program must do for it.
    pub fn input(&mut self, event: Event) -> (r: Result<Reaction, Error>)
        requires
            old(self).wf(),
        ensures
            final(self).wf(),
            old(self).took(event, *final(self), r),
    {
        match event.validate() {
            Ok(()) => {},
            Err(e) => return Err(e),
        }
        let mut actions: Vec<Action> = Vec::new();
        let mut settle = Settle::Nothing;
        match event {
            Event::Key { code, down } => {
                if down {
                    if self.keys.insert(code) {
                        push_key(&mut actions, self.backend, code, true);
                    } else {
                        assert(self.keys@ =~= old(self).keys_after(event));
                    }
                } else if self.keys.contains(&code) {
                    push_key(&mut actions, self.backend, code, false);
                    settle = Settle::Key(code);
                }
            },
            Event::Button { button, down } => {
                if down {
                    if self.buttons.insert(button) {
                        push_button(&mut actions, self.backend, button, true);
                    } else {
                        assert(self.buttons@ =~= old(self).buttons_after(event));
                    }
                } else if self.buttons.contains(&button) {
                    push_button(&mut actions, self.backend, button, false);
                    settle = Settle::Button(button);
                }
            },
            Event::Motion { x, y } => {
                if self.backend != Backend::Test {
                    actions.push(
                        Action::Motion { x, y, right: self.width - 1, bottom: self.height - 1 },
                    );
                }
            },
            Event::Scroll { x, y } => match self.backend {
                Backend::Portal { .. } => {
                    if y != 0 {
                        actions.push(Action::PortalAxis { vertical: true, steps: -y });
                    }
                    if x != 0 {
                        actions.push(Action::PortalAxis { vertical: false, steps: x });
                    }
                },
                Backend::X11 => {
                    push_turns(
                        &mut actions,
                        if y > 0 {
                            4
                        } else {
                            5
                        },
                        if y < 0 {
                            (-y) as u32
                        } else {
                            y as u32
                        },
                    );
                    push_turns(
                        &mut actions,
                        if x > 0 {
                            7
                        } else {
                            6
                        },
                        if x < 0 {
                            (-x) as u32
                        } else {
                            x as u32
                        },
                    );
                },
                Backend::Test => {},
            },
            Event::ReleaseAll => {
                actions = self.release_all();
            },
            _ => {},
        }
        assert(actions@ =~= old(self).reacts(event));
        Ok(Reaction { actions, settle })
    }

    /// What is held once a release was carried out.
    pub open spec fn let_go(self, settle: Settle, after: Capture) -> bool {
        &&& after.keys@ == match settle {
            Settle::Key(code) => self.keys@.remove(code),
            _ => self.keys@,
        }
        &&& after.buttons@ == match settle {
            Settle::Button(button) => self.buttons@.remove(button),
            _ => self.buttons@,
        }
        &&& after.width == self.width
        &&& after.height == self.height
        &&& after.backend == self.backend
    }

    /// What was to be let go has been.
    pub fn settled(&mut self, settle: Settle)
        requires
            old(self).wf(),
        ensures
            final(self).wf(),
            old(self).let_go(settle, *final(self)),
    {
        match settle {
            Settle::Nothing => {},
            Settle::Key(code) => {
                self.keys.remove(&code);
                assert(self.keys@ =~= old(self).keys@.remove(code));
            },
            Settle::Button(button) => {
                self.buttons.remove(&button);
                assert(self.buttons@ =~= old(self).buttons@.remove(button));
            },
        }
    }

    /// Lets go of all that is held. Nothing counts as held then, even where that
    /// fails.
    pub fn release_all(&mut self) -> (r: Vec<Action>)
        requires
            old(self).wf(),
        ensures
            final(self).wf(),
            r@ == old(self).releases(),
            final(self).keys@ == Set::<u16>::empty(),
            final(self).buttons@ == Set::<u8>::empty(),
            final(self).width == old(self).width,
            final(self).height == old(self).height,
            final(self).backend == old(self).backend,
    {
        let mut out: Vec<Action> = Vec::new();
        let mut code: u16 = 0;
        while code < 128
            invariant
                code <= 128,
                out@ == key_releases(self.backend, self.keys@, code as int),
            decreases 128 - code,
        {
            if self.keys.contains(&code) {
                push_key(&mut out, self.backend, code, false);
            }
            code += 1;
        }
        let ghost keys = out@;
        let mut button: u8 = 0;
        assert(out@ =~= keys + button_releases(self.backend, self.buttons@, 0));
        while button < 4
            invariant
                button <= 4,
                out@ == keys + button_releases(self.backend, self.buttons@, button as int),
            decreases 4 - button,
        {
            let ghost before = out@;
            if self.buttons.contains(&button) {
                push_button(&mut out, self.backend, button, false);
            }
            button += 1;
            assert(out@ =~= keys + button_releases(self.backend, self.buttons@, button as int));
        }
        self.keys.clear();
        self.buttons.clear();
        out
    }
}

// ----------------------------------------------------------------------- laws

proof fn key_release_is_there(backend: Backend, held: Set<u16>, code: u16, bound: int)
    requires
        held.contains(code),
        code < bound <= 128,
        backend != Backend::Test,
    ensures
        key_releases(backend, held, bound).contains(key_action(backend, code, false)[0]),
    decreases bound,
{
    let wanted = key_action(backend, code, false)[0];
    let before = key_releases(backend, held, bound - 1);
    let all = key_releases(backend, held, bound);
    if code == bound - 1 {
        assert(all[before.len() as int] == wanted);
    } else {
        key_release_is_there(backend, held, code, bound - 1);
        let k = choose|k: int| 0 <= k < before.len() && before[k] == wanted;
        assert(all[k] == wanted);
    }
}

proof fn button_release_is_there(backend: Backend, held: Set<u8>, button: u8, bound: int)
    requires
        held.contains(button),
        button < bound <= 4,
        backend != Backend::Test,
    ensures
        button_releases(backend, held, bound).contains(button_action(backend, button, false)[0]),
    decreases bound,
{
    let wanted = button_action(backend, button, false)[0];
    let before = button_releases(backend, held, bound - 1);
    let all = button_releases(backend, held, bound);
    if button == bound - 1 {
        assert(all[before.len() as int] == wanted);
    } else {
        button_release_is_there(backend, held, button, bound - 1);
        let k = choose|k: int| 0 <= k < before.len() && before[k] == wanted;
        assert(all[k] == wanted);
    }
}

/// When everything is let go, at the client's wish or at the end of a session, each
/// key and each button that was held is, and none is held afterwards.
pub proof fn nothing_stays_down(capture: Capture, code: u16, button: u8)
    requires
        capture.wf(),
        capture.backend != Backend::Test,
    ensures
        capture.keys@.contains(code) ==> capture.releases().contains(
            key_action(capture.backend, code, false)[0],
        ),
        capture.buttons@.contains(button) ==> capture.releases().contains(
            button_action(capture.backend, button, false)[0],
        ),
        capture.reacts(Event::ReleaseAll) == capture.releases(),
        capture.keys_after(Event::ReleaseAll) == Set::<u16>::empty(),
        capture.buttons_after(Event::ReleaseAll) == Set::<u8>::empty(),
{
    let keys = key_releases(capture.backend, capture.keys@, 128);
    let buttons = button_releases(capture.backend, capture.buttons@, 4);
    if capture.keys@.contains(code) {
        key_release_is_there(capture.backend, capture.keys@, code, 128);
        let wanted = key_action(capture.backend, code, false)[0];
        let k = choose|k: int| 0 <= k < keys.len() && keys[k] == wanted;
        assert(capture.releases()[k] == wanted);
    }
    if capture.buttons@.contains(button) {
        button_release_is_there(capture.backend, capture.buttons@, button, 4);
        let wanted = button_action(capture.backend, button, false)[0];
        let k = choose|k: int| 0 <= k < buttons.len() && buttons[k] == wanted;
        assert(capture.releases()[keys.len() + k] == wanted);
    }
}

/// A key that is pressed while it is held, or let go while it is not, does nothing.
pub proof fn keys_do_not_repeat(capture: Capture, code: u16, down: bool)
    requires
        capture.keys@.contains(code) == down,
    ensures
        capture.reacts(Event::Key { code, down }).len() == 0,
        capture.settles(Event::Key { code, down }) == Settle::Nothing,
        capture.keys_after(Event::Key { code, down }) =~= capture.keys@,
{
}

} // verus!
