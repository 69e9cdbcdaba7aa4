//! A session from its beginning to its end: what the user does, what the host says and
//! what is shown.
use crate::capture::{self, Action, Backend, Capture, PortalReply, Settle, Source};
use crate::client::session::{Headless, Local, Reaction, Session, Told, UiEvent};
use crate::client::{self, ConnectStep, ConnectWindow, Ended, MouseButton, Next, Options};
use crate::error::Error;
use crate::host;
use crate::laws::pointer::{lets_go, numbered, presses};
use crate::protocol::{key_code, Event, Update};
use crate::text;
use vstd::prelude::*;

verus! {

// ----------------------------------------------------------------------- input

/// What the user presses goes down on the host and what the user lets go of comes up;
/// nothing else does.
pub proof fn presses_and_releases_arrive(
    before: Session,
    event: UiEvent,
    after: Session,
    r: Reaction,
    i: int,
)
    requires
        before.reacted(event, false, after, r),
        !event.on_toolbar(),
        0 <= i < r.sends@.len(),
    ensures
        presses(r.sends@[i]) ==> event is KeyDown || event is ButtonDown,
        lets_go(r.sends@[i]) ==> event is KeyUp || event is ButtonUp,
        r.sends@[i] is Scroll ==> event is Wheel,
        r.sends@[i] is ReleaseAll ==> event is FocusLost,
        !(r.sends@[i] is SelectMonitor) && !(r.sends@[i] is ClipboardRequest)
            && !(r.sends@[i] is Clipboard),
{
    assert(before.ignores(event, false) ==> r.sends@.len() == 0);
    if !before.ignores(event, false) && !Session::quits(event) && !(event is Quit) {
        assert(r.sends@ == Session::input_sends(event));
    }
}

/// A button that is let go comes up on the host where the pointer is.
pub proof fn letting_go_of_a_button(
    before: Session,
    button: MouseButton,
    n: u8,
    at: Option<(u64, u64)>,
    after: Session,
    r: Reaction,
)
    requires
        before.reacted(UiEvent::ButtonUp { button, at }, false, after, r),
        !before.flags.switching,
        numbered(button, n),
    ensures
        r.sends@.last() == (Event::Button { button: n, down: false }),
        at matches Some((x, y)) ==> r.sends@ == seq![
            Event::Motion { x, y },
            Event::Button { button: n, down: false },
        ],
        at is None ==> r.sends@ == seq![Event::Button { button: n, down: false }],
        r.local == Local::Nothing,
        after.flags.motion is None,
{
    if at is None {
        assert(r.sends@ =~= seq![Event::Button { button: n, down: false }]);
    } else {
        let (x, y) = at->0;
        assert(r.sends@ =~= seq![
            Event::Motion { x, y },
            Event::Button { button: n, down: false },
        ]);
    }
}

/// A button that is pressed on the picture goes down on the host there.
pub proof fn pressing_a_button(
    before: Session,
    button: MouseButton,
    n: u8,
    x: i32,
    y: i32,
    width: u32,
    at: (u64, u64),
    after: Session,
    r: Reaction,
)
    requires
        before.reacted(
            UiEvent::ButtonDown { button, x, y, width, at: Some(at) },
            false,
            after,
            r,
        ),
        !before.flags.switching,
        y >= 44,
        numbered(button, n),
    ensures
        r.sends@ == seq![
            Event::Motion { x: at.0, y: at.1 },
            Event::Button { button: n, down: true },
        ],
        r.local == Local::Nothing,
{
    assert(r.sends@ =~= seq![
        Event::Motion { x: at.0, y: at.1 },
        Event::Button { button: n, down: true },
    ]);
}

/// A key arrives as itself, both when it goes down and when it comes up.
pub proof fn keys_arrive(
    before: Session,
    scancode: usize,
    code: u16,
    keycode: Option<i32>,
    modifiers: u16,
    down: Reaction,
    up: Reaction,
    after_down: Session,
    after_up: Session,
)
    requires
        key_code(scancode as int) == Some(code),
        !before.flags.switching,
        !Session::quits(
            UiEvent::KeyDown { scancode: Some(scancode), keycode, modifiers, repeat: false },
        ),
        before.reacted(
            UiEvent::KeyDown { scancode: Some(scancode), keycode, modifiers, repeat: false },
            false,
            after_down,
            down,
        ),
        before.reacted(UiEvent::KeyUp { scancode: Some(scancode) }, false, after_up, up),
    ensures
        down.sends@ == seq![Event::Key { code, down: true }],
        up.sends@ == seq![Event::Key { code, down: false }],
        down.local == Local::Nothing,
        up.local == Local::Nothing,
{
}

/// Motions wait for the end of the round, and the last one is sent: the pointer goes
/// where it was last.
pub proof fn the_last_motion_is_sent(
    before: Session,
    x: u64,
    y: u64,
    after: Session,
    r: Reaction,
    pointer_in_toolbar: bool,
)
    requires
        !before.flags.switching,
        before.reacted(UiEvent::Motion { at: Some((x, y)) }, pointer_in_toolbar, after, r),
    ensures
        r.sends@.len() == 0,
        after.due_motion() == Some(Event::Motion { x, y }),
{
}

/// The wheel turns the host's, by twenty steps at most, and not over the toolbar.
pub proof fn the_wheel_turns(
    before: Session,
    x: i32,
    y: i32,
    flipped: bool,
    pointer_in_toolbar: bool,
    after: Session,
    r: Reaction,
)
    requires
        before.reacted(UiEvent::Wheel { x, y, flipped }, pointer_in_toolbar, after, r),
        !before.flags.switching,
    ensures
        pointer_in_toolbar ==> r.sends@.len() == 0,
        !pointer_in_toolbar && -20 <= x <= 20 && -20 <= y <= 20 && !flipped ==> r.sends@ == seq![
            Event::Scroll { x, y },
        ],
        !pointer_in_toolbar && -20 <= x <= 20 && -20 <= y <= 20 && flipped ==> r.sends@ == seq![
            Event::Scroll { x: (-x) as i32, y: (-y) as i32 },
        ],
        !pointer_in_toolbar ==> r.sends@.len() == 1 && (r.sends@[0] matches Event::Scroll {
            x: across,
            y: along,
        } && -20 <= across <= 20 && -20 <= along <= 20),
{
}

/// A window that is closed, or the chord to quit, ends the session and sends nothing.
pub proof fn closing_the_window(before: Session, after: Session, r: Reaction, in_toolbar: bool)
    requires
        before.reacted(UiEvent::Quit, in_toolbar, after, r),
    ensures
        r.local == Local::Quit,
        r.sends@.len() == 0,
        after == before,
{
}

/// The button in the toolbar that is clicked is told by the sevenths of the width, and
/// each does what it is for; everything that is held is let go first.
pub proof fn clicking_the_toolbar(
    before: Session,
    x: i32,
    y: i32,
    width: u32,
    at: Option<(u64, u64)>,
    after: Session,
    r: Reaction,
    index: int,
)
    requires
        before.wf(),
        before.reacted(
            UiEvent::ButtonDown { button: MouseButton::Left, x, y, width, at },
            false,
            after,
            r,
        ),
        35 <= width <= 600_000_000,
        0 <= index < 7,
        width * index + 21 <= 7 * x,
        7 * x + 21 < width * (index + 1),
        2 <= y < 42,
    ensures
        r.sends@.len() > 0 && r.sends@[0] == Event::ReleaseAll,
        index == 0 && before.desktop.monitors@.len() > 1 && !before.flags.switching ==> {
            &&& r.sends@.len() == 2
            &&& r.sends@[1] matches Event::SelectMonitor { index: next }
            &&& before.desktop.active_monitor + 1 < before.desktop.monitors@.len() ==> next
                == before.desktop.active_monitor + 1
            &&& before.desktop.active_monitor + 1 == before.desktop.monitors@.len() ==> next == 0
            &&& after.flags.switching && !after.flags.switch_ack
        },
        index == 1 ==> after.flags.muted != before.flags.muted && (before.flags.audio ==> r.local
            == Local::Mute(after.flags.muted)) && r.sends@.len() == 1,
        index != 1 ==> after.flags.muted == before.flags.muted,
        index == 2 && before.clipboard && before.desktop.clipboard ==> r.local
            == Local::ReadClipboard && r.sends@.len() == 1,
        index == 3 && before.clipboard && before.desktop.clipboard ==> r.sends@ == seq![
            Event::ReleaseAll,
            Event::ClipboardRequest,
        ] && after.flags.clipboard_requested,
        (index == 2 || index == 3) && !(before.clipboard && before.desktop.clipboard)
            ==> after.notice@ == "Clipboard requires --clipboard on both host and client"@
            && r.sends@.len() == 1,
        index == 0 && before.desktop.monitors@.len() > 1 && !before.flags.switching
            ==> after.notice@ == "Switching monitor…"@,
        index == 3 && before.clipboard && before.desktop.clipboard ==> after.notice@
            == "Fetching clipboard…"@,
        index >= 4 ==> after.notice@ == before.notice@ && r.sends@.len() == 1,
        index == 4 ==> r.local == Local::Fullscreen,
        index == 5 ==> r.local == Local::Quit && after.flags.reconnect,
        index == 6 ==> r.local == Local::Quit && after.flags.reconnect == before.flags.reconnect,
        index == 1 && !before.desktop.audio ==> after.notice@ == "Host audio is disabled"@,
        index == 1 && before.desktop.audio && !before.flags.muted ==> after.notice@
            == "Audio muted"@,
        index == 1 && before.desktop.audio && before.flags.muted ==> after.notice@ == "Audio on"@,
{
    let event = UiEvent::ButtonDown { button: MouseButton::Left, x, y, width, at };
    assert(event.on_toolbar());
    let hit = choose|hit: Option<usize>| #[trigger] before.clicked(event, hit, after, r);
    assert(before.clicked(event, hit, after, r));
    crate::laws::pointer::every_seventh_has_its_button(x as int, y as int, width as int, index);
    if hit is None {
        assert(event->ButtonDown_x == x && event->ButtonDown_y == y && event->width == width);
        assert(forall|j: int|
            0 <= j < client::BUTTONS ==> !(#[trigger] client::button_rect(j, width as int)).holds(
                x as int,
                y as int,
            ));
        assert(!client::button_rect(index, width as int).holds(x as int, y as int));
    }
    let i = hit->0 as int;
    assert(i == index) by {
        if i < index {
            client::buttons_do_not_overlap(i, index, width as int, x as int, y as int);
        }
    }
    let n = before.desktop.monitors@.len() as int;
    if n > 1 && before.desktop.active_monitor + 1 < n {
        vstd::arithmetic::div_mod::lemma_small_mod(
            (before.desktop.active_monitor + 1) as nat,
            n as nat,
        );
    } else if n > 1 {
        vstd::arithmetic::div_mod::lemma_mod_self_0(n);
    }
}

// ------------------------------------------------------------------- the host

/// A desktop that the host describes is taken over, with up to 64 monitors in this
/// version; the picture that waits is dropped.
pub proof fn a_new_desktop(
    before: Session,
    update: Update,
    after: Session,
    r: Result<Told, Error>,
)
    requires
        before.updated(update, after, r),
    ensures
        update matches Update::Desktop { desktop } ==> {
            &&& desktop.version == 2 && desktop.monitors@.len() <= 64 ==> {
                &&& r is Ok && r->Ok_0 is DropImage
                &&& after.desktop == desktop
                &&& after.flags.switch_ack
                &&& after.flags.switching == before.flags.switching
                &&& after.notice@ == "Monitor "@ + text::decimal(
                    (desktop.active_monitor + 1) as nat,
                )
            }
            &&& desktop.version != 2 || desktop.monitors@.len() > 64 ==> r == Err::<Told, Error>(
                Error::MonitorMetadata,
            ) && after == before
        },
        !(update is Desktop) ==> after.desktop == before.desktop && after.flags.switch_ack
            == before.flags.switch_ack,
{
}

/// A text from the host is copied only where it was asked for and both sides permit it,
/// and once.
pub proof fn texts_are_copied_on_request(
    before: Session,
    text: String,
    after: Session,
    r: Result<Told, Error>,
)
    requires
        before.updated(Update::Clipboard { text }, after, r),
    ensures
        !before.clipboard || !before.flags.clipboard_requested ==> r is Ok && r->Ok_0 is Nothing
            && after == before,
        before.clipboard && before.flags.clipboard_requested && (Event::Clipboard { text }).valid()
            ==> r == Ok::<Told, Error>(Told::Copy(text)) && !after.flags.clipboard_requested,
        before.clipboard && before.flags.clipboard_requested && !(Event::Clipboard { text }).valid()
            ==> r == Err::<Told, Error>(Error::ClipboardText) && after == before,
        r is Ok && r->Ok_0 is Copy ==> r->Ok_0->Copy_0 == text,
{
}

/// What the host has to say is shown, cut to 160 characters.
pub proof fn notices_are_shown(
    before: Session,
    text: String,
    after: Session,
    r: Result<Told, Error>,
)
    requires
        before.updated(Update::Notice { text }, after, r),
    ensures
        text@.len() <= 160 ==> after.notice@ == text@,
        after.notice@.len() <= 160,
        r is Ok && r->Ok_0 is Nothing,
        after.flags == before.flags,
{
    if text@.len() > 0 {
        crate::laws::numerals::a_clipped_text_is_a_beginning(text@, 160, 0);
    }
}

/// A picture of the announced size ends a switch that was acknowledged, and no other
/// does; a picture that is too large is refused.
pub proof fn a_picture_ends_the_switch(
    before: Session,
    width: u32,
    height: u32,
    after: Session,
    r: Result<bool, Error>,
)
    requires
        before.framed(width, height, after, r),
    ensures
        r is Err <==> width > 3840 || height > 4320,
        r is Err ==> after == before && r->Err_0 == Error::ImageBounds,
        r is Ok && before.flags.switch_ack && width == before.desktop.width && height
            == before.desktop.height ==> !after.flags.switching && !after.flags.switch_ack,
        r is Ok && !(before.flags.switch_ack && width == before.desktop.width && height
            == before.desktop.height) ==> after.flags == before.flags,
        r is Ok ==> after.size == (width, height) && after.frames == before.frames + 1
            && after.total_frames == before.total_frames + 1,
        r == Ok::<bool, Error>(true) ==> before.size != (width, height),
        r == Ok::<bool, Error>(false) ==> before.size == (width, height),
        after.desktop == before.desktop && after.clipboard == before.clipboard && after.notice@
            == before.notice@,
{
}

/// The title says which monitor of how many is shown, from one on, and the width before
/// the height.
pub proof fn the_title_says_what_is_shown(session: Session, fps: Seq<char>)
    ensures
        session.title_text(fps) == "Teleport — monitor "@ + text::decimal(
            (session.desktop.active_monitor + 1) as nat,
        ) + ("/"@ + text::decimal(session.desktop.monitors@.len()) + (" · "@ + text::decimal(
            session.size.0 as nat,
        ) + ("×"@ + text::decimal(session.size.1 as nat) + (" · "@ + fps + (" fps · "@
            + session.notice@))))),
{
    let a = "Teleport — monitor "@ + text::decimal((session.desktop.active_monitor + 1) as nat);
    let b = "/"@ + text::decimal(session.desktop.monitors@.len());
    let c = " · "@ + text::decimal(session.size.0 as nat);
    let d = "×"@ + text::decimal(session.size.1 as nat);
    let e = " · "@ + fps;
    let f = " fps · "@ + session.notice@;
    assert(session.title_text(fps) =~= a + (b + (c + (d + (e + f)))));
}

/// A button is drawn as one that does something where it does.
pub proof fn what_the_toolbar_offers(session: Session)
    ensures
        session.offers(0) <==> session.desktop.monitors@.len() > 1,
        session.offers(1) <==> session.desktop.audio && !session.flags.muted,
        session.offers(2) <==> session.clipboard && session.desktop.clipboard,
        session.offers(3) <==> session.clipboard && session.desktop.clipboard,
        session.offers(4) && session.offers(5) && session.offers(6),
{
}

// ------------------------------------------------------------------ connecting

/// While a connection is made, a click on the left button tries again at once, and one
/// on the right button gives up.
pub proof fn trying_again_and_giving_up(
    before: ConnectWindow,
    x: i32,
    y: i32,
    now: u128,
    after: ConnectWindow,
    step: ConnectStep,
)
    requires
        before.clicked(x, y, now, after, step),
    ensures
        18 <= x < 168 && 205 <= y < 247 ==> step == ConnectStep::Abandon && after.begins(now),
        188 <= x < 338 && 205 <= y < 247 ==> step == ConnectStep::Cancel && !after.connecting,
        !(205 <= y < 247) || x < 18 || 168 <= x < 188 || x >= 338 ==> step == ConnectStep::Wait
            && after == before,
{
}

/// A failed attempt is followed by another after three seconds where the user wants to
/// reconnect, and otherwise not within a day. One attempt is made at a time.
pub proof fn when_the_next_attempt_begins(
    window: ConnectWindow,
    now: u128,
    reconnect: bool,
    time: u128,
)
    requires
        now + 86_400_000_000_000 <= u128::MAX,
    ensures
        window.connecting ==> !window.begins(time),
        !window.connecting && window.retry_at == ConnectWindow::next_attempt(now, true) ==> (
        window.begins(time) <==> time >= now + 3_000_000_000),
        !window.connecting && window.retry_at == ConnectWindow::next_attempt(now, false) ==> (
        window.begins(time) <==> time >= now + 86_400_000_000_000),
{
}

/// A session that failed is followed by another where the user wants to reconnect at a
/// window; one that was closed, where the user asked for it.
pub proof fn what_follows_a_session(ended: Ended, reconnect: bool, headless: bool, next: Next)
    requires
        client::follows(ended, reconnect, headless, next),
    ensures
        ended matches Ended::Closed { again } ==> (next is Again <==> again) && (next is Stop
            <==> !again),
        ended matches Ended::Failed { message } ==> {
            &&& next is Again <==> reconnect && !headless
            &&& next is Fail <==> !reconnect || headless
            &&& next matches Next::Again(why) ==> why == message
        },
{
}

/// Every 256th event opens a group, and the first does not.
pub proof fn groups_of_events(sequence: u64)
    ensures
        client::opens_group(sequence) ==> sequence >= 256,
        !client::opens_group(0),
        0 < sequence && sequence % 256 == 0 ==> client::opens_group(sequence),
        sequence % 256 != 0 ==> !client::opens_group(sequence),
{
}

/// A session is asked for at the path that the host expects of this token.
pub proof fn client_and_host_agree_on_the_path(address: Seq<char>, token: Seq<char>)
    ensures
        client::url_of(address, token) == "moqt://"@ + address + host::session_path(token),
{
    assert(client::url_of(address, token) =~= "moqt://"@ + address + host::session_path(token));
}

/// Below the toolbar of 44 rows, the desktop has the width and the rest of the height; a
/// point there is counted from its corner.
pub proof fn below_the_toolbar(window: (u32, u32), x: i32, y: i32)
    ensures
        client::space_left(window).0 == window.0,
        window.1 > 44 ==> client::space_left(window).1 + 44 == window.1,
        window.1 <= 44 ==> client::space_left(window).1 == 1,
        y < 44 ==> client::point_below(x, y) is None,
        y >= 44 ==> (client::point_below(x, y) matches Some((px, py)) && px == x && py + 44 == y),
{
}

// -------------------------------------------------------------------- the script

/// The script is sent at the fifth picture and at no other. It lets go of a key it
/// pressed and leaves another down, so that the host has something to let go of.
pub proof fn the_script(options: Options, count: int)
    ensures
        count != 5 ==> Headless::script(options, count).len() == 0,
        count == 5 && options.smoke_switch_monitor && !options.smoke_input ==> Headless::script(
            options,
            count,
        ) == seq![Event::SelectMonitor { index: 1 }],
        count == 5 && options.smoke_input && !options.smoke_switch_monitor ==> {
            let sends = Headless::script(options, count);
            &&& sends.len() == 604
            &&& forall|i: int| 0 <= i < 600 ==> #[trigger] sends[i] == Event::Ping
            &&& sends[600] == (Event::Motion {
                x: 0x3FE0_0000_0000_0000,
                y: 0x3FE0_0000_0000_0000,
            })
            &&& sends[601] == (Event::Key { code: 30, down: true })
            &&& sends[602] == (Event::Key { code: 30, down: false })
            &&& sends[603] == (Event::Key { code: 29, down: true })
        },
        Headless::tries_clipboard(options, count) <==> options.smoke_clipboard && count == 5,
{
    assert(Headless::script(options, count) =~= if count == 5 && options.smoke_switch_monitor
        && !options.smoke_input {
        seq![Event::SelectMonitor { index: 1 }]
    } else {
        Headless::script(options, count)
    });
}

// ------------------------------------------------------------------ the desktop

/// What arrives at the host moves the pointer to the same share of the screen, across and
/// down; keys and buttons go down and come up as they were sent; what is refused does
/// nothing.
pub proof fn the_host_does_what_was_sent(
    before: Capture,
    event: Event,
    after: Capture,
    r: Result<capture::Reaction, Error>,
)
    requires
        before.wf(),
        before.took(event, after, r),
        before.backend != Backend::Test,
    ensures
        r is Ok <==> event.valid(),
        r is Err ==> after == before && r->Err_0 == event.complaint(),
        r matches Ok(reaction) ==> {
            &&& event matches Event::Motion { x, y } ==> reaction.actions@.len() == 1 && (
            reaction.actions@[0] matches Action::Motion { x: across, y: down, right, bottom }
                && across == x && down == y && right + 1 == before.width && bottom + 1
                == before.height)
            &&& event matches Event::Key { code, down } ==> after.buttons@ == before.buttons@ && (
            down ==> after.keys@ == before.keys@.insert(code)) && (before.keys@.contains(code)
                == down ==> reaction.actions@.len() == 0) && (before.keys@.contains(code) != down
                ==> reaction.actions@.len() == 1)
            &&& event matches Event::Button { button, down } ==> after.keys@ == before.keys@ && (
            down ==> after.buttons@ == before.buttons@.insert(button)) && (
            before.buttons@.contains(button) == down ==> reaction.actions@.len() == 0) && (
            before.buttons@.contains(button) != down ==> reaction.actions@.len() == 1)
        },
        after.width == before.width && after.height == before.height && after.backend
            == before.backend,
{
    if let Event::Motion { x, y } = event {
        crate::laws::pointer::the_pointer_goes_where_it_should(before, x, y);
    }
    if let Event::Key { code, down } = event {
        if event.valid() {
            if before.keys@.contains(code) != down {
                crate::laws::pointer::keys_reach_the_desktop(before, code, down);
            } else if down {
                assert(before.keys@.insert(code) =~= before.keys@);
            }
        }
    }
    if let Event::Button { button, down } = event {
        if event.valid() {
            if before.buttons@.contains(button) != down {
                crate::laws::pointer::buttons_reach_the_desktop(before, button, down);
            } else if down {
                assert(before.buttons@.insert(button) =~= before.buttons@);
            }
        }
    }
}

/// Where the pictures come from: what was asked for, where it is there; the portal where
/// the session is Wayland's, and the X server elsewhere.
pub proof fn where_pictures_come_from(
    session: Option<Seq<char>>,
    wayland_display: bool,
    other: Seq<char>,
)
    ensures
        capture::resolved("auto"@, Some("wayland"@), wayland_display) == Ok::<Source, Error>(
            Source::Portal,
        ),
        capture::resolved("auto"@, session, true) == Ok::<Source, Error>(Source::Portal),
        capture::resolved("auto"@, None, false) == Ok::<Source, Error>(Source::X11),
        capture::resolved("auto"@, Some("x11"@), false) == Ok::<Source, Error>(Source::X11),
        capture::resolved("test"@, session, wayland_display) == Ok::<Source, Error>(Source::Test),
        capture::resolved("portal"@, session, wayland_display) == Ok::<Source, Error>(
            Source::Portal,
        ),
        capture::resolved("x11"@, session, true) == Err::<Source, Error>(Error::X11OnWayland),
        capture::resolved("x11"@, Some("wayland"@), wayland_display) == Err::<Source, Error>(
            Error::X11OnWayland,
        ),
        capture::resolved("x11"@, None, false) == Ok::<Source, Error>(Source::X11),
        other != "auto"@ && other != "test"@ && other != "portal"@ && other != "x11"@
            ==> capture::resolved(other, session, wayland_display) == Err::<Source, Error>(
            Error::UnknownSource,
        ),
{
    reveal_strlit("auto");
    reveal_strlit("test");
    reveal_strlit("portal");
    reveal_strlit("x11");
    reveal_strlit("wayland");
    assert("auto"@[0] == 'a');
    assert("test"@[0] == 't');
    assert("portal"@[0] == 'p');
    assert("x11"@[0] == 'x');
    assert("wayland"@[0] == 'w');
}

/// The portal must grant keyboard and pointer and a monitor of some size; the width comes
/// first.
pub proof fn what_the_portal_grants(reply: PortalReply, width: i32, height: i32)
    requires
        reply.size == Some((width, height)),
    ensures
        reply.keyboard && reply.pointer && reply.stream && width > 0 && height > 0
            ==> capture::granted(reply) == Ok::<(u32, u32), Error>((width as u32, height as u32)),
        !reply.keyboard || !reply.pointer ==> capture::granted(reply) == Err::<(u32, u32), Error>(
            Error::PortalPermission,
        ),
        reply.keyboard && reply.pointer && !reply.stream ==> capture::granted(reply) == Err::<
            (u32, u32),
            Error,
        >(Error::NoPortalMonitor),
        reply.keyboard && reply.pointer && reply.stream && (width <= 0 || height <= 0)
            ==> capture::granted(reply) == Err::<(u32, u32), Error>(Error::PortalSize),
{
}

// ---------------------------------------------------------------- around a session

/// What was in the clipboard is sent as it is, where the host accepts it; what went wrong
/// is told.
pub proof fn the_clipboard_is_sent(
    before: Session,
    read: Result<String, String>,
    after: Session,
    r: Option<Event>,
)
    requires
        before.copied(read, after, r),
    ensures
        read matches Ok(text) ==> (Event::Clipboard { text }).valid() ==> r == Some(
            Event::Clipboard { text },
        ) && after.notice@ == "Sending clipboard…"@,
        read matches Ok(text) ==> !(Event::Clipboard { text }).valid() ==> r is None,
        read matches Err(complaint) ==> r is None && after.notice@ == complaint@,
        after.flags == before.flags && after.desktop == before.desktop,
{
}

/// A check without a window counts pictures; a switch has worked once a picture is higher
/// than wide. An empty picture is refused, and so is a clipboard that one side forbids.
pub proof fn pictures_are_counted(
    before: Headless,
    options: Options,
    host_clipboard: bool,
    width: u32,
    height: u32,
    empty: bool,
    after: Headless,
    r: Result<Vec<Event>, Error>,
)
    requires
        before.shown(options, host_clipboard, width, height, empty, after, r),
        before.count < before.wanted,
    ensures
        empty ==> r is Err && r->Err_0 == Error::EmptyFrame && after.count == before.count,
        !empty ==> after.count == before.count + 1,
        !empty && before.count != 4 ==> r is Ok && r->Ok_0@.len() == 0,
        r is Err && !empty ==> r->Err_0 == Error::ClipboardBothEnds && options.smoke_clipboard && !(
        options.clipboard && host_clipboard) && before.count == 4,
        r is Ok && options.smoke_switch_monitor && before.count >= 5 && height > width
            ==> after.switched,
        r is Ok && !before.switched && (height <= width || before.count < 5) ==> !after.switched,
        r is Ok && before.count == 4 && options.smoke_clipboard ==> r->Ok_0@.len() >= 2
            && r->Ok_0@[0] is Clipboard && r->Ok_0@[1] == Event::ClipboardRequest,
        after.wanted == before.wanted && after.clipboard_ok == before.clipboard_ok,
{
}

/// What was tried must have worked.
pub proof fn what_a_check_proves(
    check: Headless,
    options: Options,
    audio_decoded: bool,
    r: Result<(), Error>,
)
    requires
        check.passes(options, audio_decoded, r),
    ensures
        r is Ok && options.smoke_switch_monitor ==> check.switched,
        r is Ok && options.smoke_audio ==> audio_decoded,
        r is Ok && options.smoke_clipboard ==> check.clipboard_ok,
        check.switched && audio_decoded && check.clipboard_ok ==> r is Ok,
        options.smoke_switch_monitor && !check.switched ==> r == Err::<(), Error>(
            Error::NoPortraitFrames,
        ),
        check.switched && options.smoke_audio && !audio_decoded ==> r == Err::<(), Error>(
            Error::NoAudioDecoded,
        ),
        check.switched && audio_decoded && options.smoke_clipboard && !check.clipboard_ok ==> r
            == Err::<(), Error>(Error::ClipboardRoundtrip),
{
}

/// A key or button whose release was carried out is not held any more; the others are.
pub proof fn releases_are_settled(
    before: Capture,
    settle: Settle,
    after: Capture,
    code: u16,
    button: u8,
)
    requires
        before.let_go(settle, after),
    ensures
        settle == Settle::Key(code) ==> !after.keys@.contains(code),
        settle == Settle::Button(button) ==> !after.buttons@.contains(button),
        settle != Settle::Key(code) ==> (after.keys@.contains(code) <==> before.keys@.contains(code)),
        settle != Settle::Button(button) ==> (after.buttons@.contains(button)
            <==> before.buttons@.contains(button)),
        after.width == before.width && after.height == before.height && after.backend
            == before.backend,
{
}

/// Whatever happens at the window, the stream goes on as it is; what is typed or pointed at
/// changes no flag but the motion that waits, and no notice.
pub proof fn input_changes_nothing_else(
    before: Session,
    event: UiEvent,
    pointer_in_toolbar: bool,
    after: Session,
    r: Reaction,
)
    requires
        before.reacted(event, pointer_in_toolbar, after, r),
    ensures
        after.desktop == before.desktop && after.clipboard == before.clipboard && after.size
            == before.size && after.frames == before.frames && after.total_frames
            == before.total_frames,
        !event.on_toolbar() ==> after.notice@ == before.notice@ && after.flags.muted
            == before.flags.muted && after.flags.audio == before.flags.audio
            && after.flags.reconnect == before.flags.reconnect && after.flags.switching
            == before.flags.switching && after.flags.switch_ack == before.flags.switch_ack
            && after.flags.clipboard_requested == before.flags.clipboard_requested,
        !event.on_toolbar() && event is FocusLost ==> r.sends@ == seq![Event::ReleaseAll]
            && after.flags.motion is None,
        !event.on_toolbar() && !(event is Quit) && !Session::quits(event) ==> r.local
            == Local::Nothing,
{
}

/// A release is settled once it was carried out: for the key or the button that was held,
/// and for no other.
pub proof fn what_a_release_settles(
    before: Capture,
    event: Event,
    after: Capture,
    r: Result<capture::Reaction, Error>,
)
    requires
        before.took(event, after, r),
    ensures
        r matches Ok(reaction) ==> {
            &&& event matches Event::Key { code, down } ==> reaction.settle == if !down
                && before.keys@.contains(code) {
                Settle::Key(code)
            } else {
                Settle::Nothing
            }
            &&& event matches Event::Button { button, down } ==> reaction.settle == if !down
                && before.buttons@.contains(button) {
                Settle::Button(button)
            } else {
                Settle::Nothing
            }
            &&& !(event is Key) && !(event is Button) ==> reaction.settle == Settle::Nothing
            &&& event is ReleaseAll ==> after.keys@ == Set::<u16>::empty() && after.buttons@
                == Set::<u8>::empty()
            &&& !(event is Key) && !(event is Button) && !(event is ReleaseAll) ==> after.keys@
                == before.keys@ && after.buttons@ == before.buttons@
        },
{
}

} // verus!
