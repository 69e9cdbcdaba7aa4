//! Pointer, buttons, wheel and keys on their way from the client's window to the
//! host's desktop.
use crate::capture::{Action, Backend, Capture, Settle};
use crate::client::session::{Local, Session, UiEvent};
use crate::client::{button_at, button_rect, cancel_button, retry_button, MouseButton};
use crate::laws::keyboard::control_and_alt;
use crate::protocol::{key_code, Event};
use vstd::prelude::*;

verus! {

// ---------------------------------------------------------- the client's window

/// The number of a button in the protocol, as the X server counts them.
pub open spec fn numbered(button: MouseButton, n: u8) -> bool {
    &&& button == MouseButton::Left <==> n == 1
    &&& button == MouseButton::Middle <==> n == 2
    &&& button == MouseButton::Right <==> n == 3
    &&& 1 <= n <= 3
}

/// The event presses a key or a button on the host.
pub open spec fn presses(event: Event) -> bool {
    (event matches Event::Button { down, .. } && down) || (event matches Event::Key { down, .. }
        && down)
}

/// The event lets go of a key or a button on the host.
pub open spec fn lets_go(event: Event) -> bool {
    (event matches Event::Button { down, .. } && !down) || (event matches Event::Key { down, .. }
        && !down)
}

/// A button that is let go is let go on the host, at the place where the pointer is:
/// the pointer goes there first. Nothing is pressed.
pub proof fn a_released_button_is_released(button: MouseButton, at: Option<(u64, u64)>, n: u8)
    ensures
        ({
            let sends = Session::input_sends(UiEvent::ButtonUp { button, at });
            &&& numbered(button, n) ==> sends.len() > 0 && sends.last() == (Event::Button {
                button: n,
                down: false,
            })
            &&& forall|i: int| 0 <= i < sends.len() ==> !presses(#[trigger] sends[i])
            &&& at matches Some((x, y)) ==> sends.len() > 0 && sends[0] == (Event::Motion { x, y })
            &&& at is None ==> forall|i: int|
                0 <= i < sends.len() ==> !((#[trigger] sends[i]) is Motion)
            &&& sends.len() == (if at is Some {
                1int
            } else {
                0
            }) + (if button == MouseButton::Other {
                0int
            } else {
                1
            })
        }),
{
}

/// A button that goes down on the desktop goes down on the host, after the pointer
/// went there; one that goes down elsewhere is not sent. Nothing is let go.
pub proof fn a_pressed_button_is_pressed(
    button: MouseButton,
    x: i32,
    y: i32,
    width: u32,
    at: Option<(u64, u64)>,
    n: u8,
)
    ensures
        ({
            let sends = Session::input_sends(UiEvent::ButtonDown { button, x, y, width, at });
            &&& at is None ==> sends.len() == 0
            &&& at matches Some((px, py)) ==> {
                &&& sends.len() >= 1
                &&& sends[0] == (Event::Motion { x: px, y: py })
                &&& numbered(button, n) ==> sends.len() == 2 && sends[1] == (Event::Button {
                    button: n,
                    down: true,
                })
                &&& button == MouseButton::Other ==> sends.len() == 1
            }
            &&& forall|i: int| 0 <= i < sends.len() ==> !lets_go(#[trigger] sends[i])
        }),
{
}

/// A click leaves no button down: what its release sends last is the release of the
/// very button that its press has sent last.
pub proof fn a_click_leaves_nothing_down(
    button: MouseButton,
    x: i32,
    y: i32,
    width: u32,
    at: Option<(u64, u64)>,
    at_end: Option<(u64, u64)>,
)
    requires
        at is Some,
        button != MouseButton::Other,
    ensures
        ({
            let down = Session::input_sends(UiEvent::ButtonDown { button, x, y, width, at });
            let up = Session::input_sends(UiEvent::ButtonUp { button, at: at_end });
            &&& down.last() matches Event::Button { button: pressed, down: true }
            &&& up.last() matches Event::Button { button: released, down: false }
            &&& pressed == released
        }),
{
}

/// A key goes down and comes up as the same key, and a repeat is not sent: the host
/// repeats keys itself.
pub proof fn a_key_comes_up_as_it_went_down(
    scancode: usize,
    keycode: Option<i32>,
    modifiers: u16,
    code: u16,
)
    requires
        key_code(scancode as int) == Some(code),
    ensures
        Session::input_sends(
            UiEvent::KeyDown { scancode: Some(scancode), keycode, modifiers, repeat: false },
        ) == seq![Event::Key { code, down: true }],
        Session::input_sends(UiEvent::KeyUp { scancode: Some(scancode) }) == seq![
            Event::Key { code, down: false },
        ],
        Session::input_sends(
            UiEvent::KeyDown { scancode: Some(scancode), keycode, modifiers, repeat: true },
        ).len() == 0,
{
}

/// A key that the host does not know is not sent.
pub proof fn unknown_keys_are_not_sent(
    scancode: Option<usize>,
    keycode: Option<i32>,
    modifiers: u16,
    repeat: bool,
)
    requires
        scancode matches Some(s) ==> key_code(s as int) is None,
    ensures
        Session::input_sends(UiEvent::KeyDown { scancode, keycode, modifiers, repeat }).len() == 0,
        Session::input_sends(UiEvent::KeyUp { scancode }).len() == 0,
{
}

/// One side of the wheel as it is sent: twenty steps at most, in the direction of the
/// wheel, or against it where the system has turned it round.
pub open spec fn scrolls(turned: i32, flipped: bool, sent: i32) -> bool {
    &&& -20 <= turned <= 20 ==> sent == if flipped {
        -turned
    } else {
        turned as int
    }
    &&& turned > 20 ==> sent == if flipped {
        -20int
    } else {
        20
    }
    &&& turned < -20 ==> sent == if flipped {
        20int
    } else {
        -20
    }
}

/// The wheel scrolls across and down, each as far as it was turned that way.
pub proof fn the_wheel_scrolls_as_it_turns(x: i32, y: i32, flipped: bool)
    ensures
        ({
            let sends = Session::input_sends(UiEvent::Wheel { x, y, flipped });
            &&& sends.len() == 1
            &&& sends[0] matches Event::Scroll { x: across, y: down }
            &&& scrolls(x, flipped, across)
            &&& scrolls(y, flipped, down)
        }),
{
}

/// Of many motions the last one is sent, as it was; what is sent with a place of its
/// own, or lets go of everything, makes it void, and keys and the wheel do not.
pub proof fn the_last_motion_counts(session: Session, event: UiEvent)
    ensures
        event matches UiEvent::Motion { at } ==> session.pending_motion(event) == at
            && Session::input_sends(event).len() == 0,
        event is ButtonDown || event is ButtonUp || event is FocusLost ==> session.pending_motion(
            event,
        ) is None,
        event is KeyDown || event is KeyUp || event is Wheel || event is Other || event is Quit
            ==> session.pending_motion(event) == session.flags.motion,
        event is Other || event is Quit ==> Session::input_sends(event).len() == 0,
{
}

/// The session ends with Q, a control key and an alt key, and with no other key.
pub proof fn the_quit_chord(event: UiEvent)
    ensures
        Session::quits(event) <==> (event matches UiEvent::KeyDown { keycode, modifiers, .. }
            && keycode == Some('q' as i32) && control_and_alt(modifiers)),
{
    if let UiEvent::KeyDown { scancode, keycode, modifiers, repeat } = event {
        let key = crate::keyboard_capture::KeyEvent { keycode, modifiers, down: true, repeat };
        crate::laws::keyboard::only_the_chord_with_q_disconnects(
            crate::keyboard_capture::Shortcuts { toggle_down: false, stats_down: false },
            key,
            false,
        );
    }
}

/// What is not sent at all: the wheel while the pointer is on the toolbar, and
/// pointer, wheel and keys while the monitor is being switched, but for the quit chord
/// and the left button above the desktop.
pub proof fn what_is_ignored(session: Session, event: UiEvent, pointer_in_toolbar: bool)
    ensures
        event is Wheel && pointer_in_toolbar ==> session.ignores(event, pointer_in_toolbar),
        !session.flags.switching && !(event is Wheel && pointer_in_toolbar) ==> !session.ignores(
            event,
            pointer_in_toolbar,
        ),
        session.flags.switching && (event is KeyUp || event is Motion || event is ButtonUp
            || event is Wheel) ==> session.ignores(event, pointer_in_toolbar),
        event is Quit || event is FocusLost || event is Other ==> !session.ignores(
            event,
            pointer_in_toolbar,
        ),
        event matches UiEvent::ButtonDown { button, y, .. } ==> (session.flags.switching && !(button
            == MouseButton::Left && y < 44) <==> session.ignores(event, pointer_in_toolbar)),
        event.on_toolbar() <==> (event matches UiEvent::ButtonDown { button, y, .. } && button
            == MouseButton::Left && y < 44),
        Session::quits(event) ==> !session.ignores(event, pointer_in_toolbar),
{
}

// ------------------------------------------------------------------ the toolbar

/// The seven buttons share the width of the window: the one at a point is told by how
/// many sevenths lie left of it. They stand within the toolbar.
pub proof fn buttons_share_the_width(x: int, y: int, width: int, index: int)
    requires
        35 <= width <= 600_000_000,
        button_at(x, y, width, index),
    ensures
        index == 7 * x / width,
        0 <= index < 7,
        2 <= y < 42,
{
    let left = width * index / 7;
    let right = width * (index + 1) / 7;
    assert(width * (index + 1) == width * index + width) by (nonlinear_arith);
    assert(0 <= width * index <= width * 6) by (nonlinear_arith)
        requires
            0 <= index <= 6,
            width >= 0,
    ;
    assert(left + 2 <= x < right - 2);
    assert(width * index <= 7 * x < width * index + width);
    assert(7 * x / width == index) by (nonlinear_arith)
        requires
            width > 0,
            width * index <= 7 * x < width * index + width,
    ;
}

/// A point well within a seventh of the toolbar is on its button.
pub proof fn every_seventh_has_its_button(x: int, y: int, width: int, index: int)
    requires
        35 <= width <= 600_000_000,
        0 <= index < 7,
        width * index + 21 <= 7 * x,
        7 * x + 21 < width * (index + 1),
        2 <= y < 42,
    ensures
        button_rect(index, width).holds(x, y),
{
    assert(width * (index + 1) == width * index + width) by (nonlinear_arith);
    assert(0 <= width * index <= width * 6) by (nonlinear_arith)
        requires
            0 <= index <= 6,
            width >= 0,
    ;
}

/// While a connection is made, the left button of the window tries again and the
/// right one cancels; each is 150 by 42.
pub proof fn retry_stands_left_of_cancel(x: int, y: int)
    ensures
        retry_button().holds(x, y) <==> 18 <= x < 168 && 205 <= y < 247,
        cancel_button().holds(x, y) <==> 188 <= x < 338 && 205 <= y < 247,
{
}

/// Where the switch goes: to the monitor after the one that is shown, and from the last
/// to the first.
pub proof fn the_next_monitor_follows(session: Session)
    requires
        session.desktop.monitors@.len() > 1,
        session.desktop.monitors@.len() <= usize::MAX,
        session.desktop.active_monitor < session.desktop.monitors@.len(),
    ensures
        session.next_monitor() != session.desktop.active_monitor,
        session.next_monitor() < session.desktop.monitors@.len(),
        session.desktop.active_monitor + 1 < session.desktop.monitors@.len()
            ==> session.next_monitor() == session.desktop.active_monitor + 1,
        session.desktop.active_monitor + 1 == session.desktop.monitors@.len()
            ==> session.next_monitor() == 0,
{
    let n = session.desktop.monitors@.len() as int;
    let a = session.desktop.active_monitor as int;
    if a + 1 < n {
        vstd::arithmetic::div_mod::lemma_small_mod((a + 1) as nat, n as nat);
    } else {
        vstd::arithmetic::div_mod::lemma_mod_self_0(n);
    }
}

/// The first button turns to the next monitor, where there is one and no switch is
/// under way; input then waits, and no other button sends that.
pub proof fn the_first_button_switches(session: Session, hit: Option<usize>)
    ensures
        ({
            let sends = session.button_sends(hit);
            let switches = hit == Some(0usize) && !session.flags.switching
                && session.desktop.monitors@.len() > 1;
            &&& switches <==> sends.contains(Event::SelectMonitor { index: session.next_monitor() })
            &&& forall|i: int|
                0 <= i < sends.len() ==> ((#[trigger] sends[i]) is SelectMonitor ==> switches)
            &&& session.button_flags(hit).switching == (session.flags.switching || switches)
            &&& switches ==> !session.button_flags(hit).switch_ack
            &&& !switches ==> session.button_flags(hit).switch_ack == session.flags.switch_ack
            &&& session.button_flags(hit).motion is None
        }),
{
    let sends = session.button_sends(hit);
    if hit == Some(0usize) && session.can_switch() {
        assert(sends[1] == Event::SelectMonitor { index: session.next_monitor() });
    }
}

/// The second button mutes and unmutes: twice is as never. The output is told of it
/// where there is one.
pub proof fn the_second_button_mutes(session: Session, hit: Option<usize>, later: Session)
    ensures
        session.button_flags(hit).muted == (if hit == Some(1usize) {
            !session.flags.muted
        } else {
            session.flags.muted
        }),
        later.flags == session.button_flags(Some(1usize)) ==> later.button_flags(
            Some(1usize),
        ).muted == session.flags.muted,
        session.button_local(hit) is Mute <==> hit == Some(1usize) && session.flags.audio,
        session.button_local(hit) matches Local::Mute(m) ==> m == session.button_flags(hit).muted,
        session.button_flags(hit).audio == session.flags.audio,
{
}

/// Text goes to the host with the third button and comes from it with the fourth, and
/// only where both sides permit it.
pub proof fn text_goes_out_and_comes_in(session: Session, hit: Option<usize>)
    ensures
        session.button_local(hit) == Local::ReadClipboard <==> hit == Some(2usize)
            && session.clipboard && session.desktop.clipboard,
        session.button_sends(hit).contains(Event::ClipboardRequest) <==> hit == Some(3usize)
            && session.clipboard && session.desktop.clipboard,
        session.button_flags(hit).clipboard_requested == (session.flags.clipboard_requested || hit
            == Some(3usize) && session.clipboard && session.desktop.clipboard),
{
    let sends = session.button_sends(hit);
    if hit == Some(3usize) && session.transfers() {
        assert(sends[1] == Event::ClipboardRequest);
    }
}

/// The fifth button is for the full screen, the sixth ends the session and asks for
/// another, and the seventh ends it.
pub proof fn the_last_buttons(session: Session, hit: Option<usize>)
    ensures
        session.button_local(hit) == Local::Fullscreen <==> hit == Some(4usize),
        session.button_local(hit) == Local::Quit <==> hit == Some(5usize) || hit == Some(6usize),
        session.button_flags(hit).reconnect == (session.flags.reconnect || hit == Some(5usize)),
{
}

// ------------------------------------------------------------ the host's desktop

/// The pointer goes as far across as the event says, of the way to the right edge, and
/// as far down as it says, of the way to the bottom edge.
pub proof fn the_pointer_goes_where_it_should(capture: Capture, x: u64, y: u64)
    requires
        capture.wf(),
        capture.backend != Backend::Test,
    ensures
        ({
            let actions = capture.reacts(Event::Motion { x, y });
            &&& actions.len() == 1
            &&& actions[0] matches Action::Motion { x: across, y: down, right, bottom }
            &&& across == x
            &&& down == y
            &&& right + 1 == capture.width
            &&& bottom + 1 == capture.height
        }),
{
}

/// A key that is pressed goes down and one that is let go comes up. The portal takes
/// the Linux code, and the X server counts from eight.
pub proof fn keys_reach_the_desktop(capture: Capture, code: u16, down: bool)
    requires
        capture.keys@.contains(code) != down,
        1 <= code <= 127,
    ensures
        ({
            let actions = capture.reacts(Event::Key { code, down });
            &&& capture.backend is Portal ==> actions.len() == 1 && (actions[0] matches
                Action::PortalKey { code: c, down: d } && c == code && d == down)
            &&& capture.backend == Backend::X11 ==> actions.len() == 1 && (actions[0] matches
                Action::Fake { kind, detail } && detail == code + 8 && kind == if down {
                2u8
            } else {
                3u8
            })
        }),
{
}

/// A button that is pressed goes down and one that is let go comes up. The portal has
/// the Linux codes of the left, the right and the middle button, in this order.
pub proof fn buttons_reach_the_desktop(capture: Capture, button: u8, down: bool)
    requires
        capture.buttons@.contains(button) != down,
        1 <= button <= 3,
    ensures
        ({
            let actions = capture.reacts(Event::Button { button, down });
            &&& capture.backend is Portal ==> actions.len() == 1 && (actions[0] matches
                Action::PortalButton { code, down: d } && d == down && (button == 1 ==> code
                == 0x110) && (button == 3 ==> code == 0x111) && (button == 2 ==> code == 0x112))
            &&& capture.backend == Backend::X11 ==> actions.len() == 1 && (actions[0] matches
                Action::Fake { kind, detail } && detail == button && kind == if down {
                4u8
            } else {
                5u8
            })
        }),
{
}

/// On the portal the wheel moves the vertical axis by the steps that the event says,
/// with down as positive, and the horizontal one with right as positive.
pub proof fn the_portal_scrolls(capture: Capture, x: i32, y: i32, action: Action)
    requires
        capture.backend is Portal,
        -20 <= x <= 20,
        -20 <= y <= 20,
    ensures
        capture.reacts(Event::Scroll { x, y }).contains(action) <==> (action matches
            Action::PortalAxis { vertical, steps } && steps != 0 && (vertical ==> steps == -y) && (
        !vertical ==> steps == x)),
        capture.reacts(Event::Scroll { x, y }).len() <= 2,
{
    let actions = capture.reacts(Event::Scroll { x, y });
    if y != 0 {
        assert(actions[0] == Action::PortalAxis { vertical: true, steps: (-y) as i32 });
    }
    if x != 0 {
        assert(actions.last() == Action::PortalAxis { vertical: false, steps: x });
    }
}

/// How often this button of the wheel is pressed in the actions.
pub open spec fn clicks(actions: Seq<Action>, button: u8) -> nat
    decreases actions.len(),
{
    if actions.len() == 0 {
        0
    } else {
        clicks(actions.drop_last(), button) + (if actions.last() == (Action::Fake {
            kind: 4,
            detail: button,
        }) {
            1nat
        } else {
            0
        })
    }
}

proof fn clicks_add_up(a: Seq<Action>, b: Seq<Action>, button: u8)
    ensures
        clicks(a + b, button) == clicks(a, button) + clicks(b, button),
    decreases b.len(),
{
    if b.len() == 0 {
        assert(a + b =~= a);
    } else {
        assert((a + b).drop_last() =~= a + b.drop_last());
        clicks_add_up(a, b.drop_last(), button);
    }
}

proof fn clicks_of_turns(turned: u8, count: int, button: u8)
    requires
        0 <= count,
    ensures
        clicks(crate::capture::turns(turned, count), button) == if turned == button {
            count
        } else {
            0
        },
    decreases count,
{
    let all = crate::capture::turns(turned, count);
    if count > 0 {
        let fewer = crate::capture::turns(turned, count - 1);
        assert(all.drop_last().drop_last() =~= fewer);
        assert(all.drop_last().last() == Action::Fake { kind: 4, detail: turned });
        assert(all.last() == Action::Fake { kind: 5, detail: turned });
        clicks_of_turns(turned, count - 1, button);
        assert(clicks(all, button) == clicks(all.drop_last(), button));
    }
}

/// On an X server each step of the wheel is a click of one of its four buttons: up,
/// down, left and right, counted from four. Every press is let go at once.
pub proof fn the_x_server_scrolls(capture: Capture, x: i32, y: i32, i: int)
    requires
        capture.backend == Backend::X11,
        -20 <= x <= 20,
        -20 <= y <= 20,
    ensures
        ({
            let actions = capture.reacts(Event::Scroll { x, y });
            &&& clicks(actions, 4) == if y > 0 {
                y as int
            } else {
                0
            }
            &&& clicks(actions, 5) == if y < 0 {
                -y
            } else {
                0
            }
            &&& clicks(actions, 6) == if x < 0 {
                -x
            } else {
                0
            }
            &&& clicks(actions, 7) == if x > 0 {
                x as int
            } else {
                0
            }
            &&& actions.len() % 2 == 0
            &&& 0 <= 2 * i < actions.len() ==> (actions[2 * i] matches Action::Fake { kind, detail }
                && kind == 4 && actions[2 * i + 1] == (Action::Fake { kind: 5, detail }))
        }),
{
    let down: u8 = if y > 0 {
        4
    } else {
        5
    };
    let across: u8 = if x > 0 {
        7
    } else {
        6
    };
    let a = crate::capture::turns(down, crate::capture::magnitude(y));
    let b = crate::capture::turns(across, crate::capture::magnitude(x));
    assert(capture.reacts(Event::Scroll { x, y }) == a + b);
    assert forall|button: u8| #[trigger] clicks(a + b, button) == clicks(a, button) + clicks(
        b,
        button,
    ) by {
        clicks_add_up(a, b, button);
    }
    clicks_of_turns(down, crate::capture::magnitude(y), 4);
    clicks_of_turns(down, crate::capture::magnitude(y), 5);
    clicks_of_turns(down, crate::capture::magnitude(y), 6);
    clicks_of_turns(down, crate::capture::magnitude(y), 7);
    clicks_of_turns(across, crate::capture::magnitude(x), 4);
    clicks_of_turns(across, crate::capture::magnitude(x), 5);
    clicks_of_turns(across, crate::capture::magnitude(x), 6);
    clicks_of_turns(across, crate::capture::magnitude(x), 7);
}

/// What was pressed is held until it was let go, and nothing else changes: after the
/// press the release is carried out, and once that is settled the key is up again.
pub proof fn held_keys_are_remembered(capture: Capture, code: u16, other: u16, down: bool)
    ensures
        capture.keys_after(Event::Key { code, down: true }).contains(code),
        other != code ==> capture.keys_after(Event::Key { code, down }).contains(other)
            == capture.keys@.contains(other),
        capture.settles(Event::Key { code, down: false }) == (if capture.keys@.contains(code) {
            Settle::Key(code)
        } else {
            Settle::Nothing
        }),
        capture.settles(Event::Key { code, down: true }) == Settle::Nothing,
        capture.buttons_after(Event::Key { code, down }) == capture.buttons@,
{
}

pub proof fn held_buttons_are_remembered(capture: Capture, button: u8, other: u8, down: bool)
    ensures
        capture.buttons_after(Event::Button { button, down: true }).contains(button),
        other != button ==> capture.buttons_after(Event::Button { button, down }).contains(other)
            == capture.buttons@.contains(other),
        capture.settles(Event::Button { button, down: false }) == (if capture.buttons@.contains(
            button,
        ) {
            Settle::Button(button)
        } else {
            Settle::Nothing
        }),
        capture.settles(Event::Button { button, down: true }) == Settle::Nothing,
        capture.keys_after(Event::Button { button, down }) == capture.keys@,
        capture.buttons@.contains(button) == down ==> capture.reacts(
            Event::Button { button, down },
        ).len() == 0,
{
}

/// Pointer and wheel hold nothing, and messages that are no input do nothing here.
pub proof fn the_rest_holds_nothing(capture: Capture, event: Event)
    requires
        !(event is Key) && !(event is Button) && !(event is ReleaseAll),
    ensures
        capture.keys_after(event) == capture.keys@,
        capture.buttons_after(event) == capture.buttons@,
        capture.settles(event) == Settle::Nothing,
        !(event is Motion) && !(event is Scroll) ==> capture.reacts(event).len() == 0,
{
}

/// The test backend is never asked for anything.
pub proof fn the_test_backend_does_nothing(capture: Capture, event: Event)
    requires
        capture.wf(),
        capture.backend == Backend::Test,
    ensures
        capture.reacts(event).len() == 0,
{
    no_releases(capture.keys@, 128);
    no_button_releases(capture.buttons@, 4);
}

proof fn no_releases(held: Set<u16>, bound: int)
    ensures
        crate::capture::key_releases(Backend::Test, held, bound).len() == 0,
    decreases bound,
{
    if bound > 0 {
        no_releases(held, bound - 1);
    }
}

proof fn no_button_releases(held: Set<u8>, bound: int)
    ensures
        crate::capture::button_releases(Backend::Test, held, bound).len() == 0,
    decreases bound,
{
    if bound > 0 {
        no_button_releases(held, bound - 1);
    }
}

/// The action lets go of this key.
pub open spec fn key_up(action: Action, code: u16) -> bool {
    action == (Action::PortalKey { code: code as i32, down: false }) || action == (Action::Fake {
        kind: 3,
        detail: (code + 8) as u8,
    })
}

/// The action lets go of this button.
pub open spec fn button_up(action: Action, button: u8) -> bool {
    (action matches Action::PortalButton { code, down } && !down && code == if button == 1 {
        0x110i32
    } else if button == 2 {
        0x112i32
    } else {
        0x111i32
    }) || action == (Action::Fake { kind: 5, detail: button })
}

/// One of these keys comes up by the action.
pub open spec fn some_key_up(action: Action, held: Set<u16>) -> bool {
    exists|code: u16| #[trigger] held.contains(code) && key_up(action, code)
}

/// One of these buttons comes up by the action.
pub open spec fn some_button_up(action: Action, held: Set<u8>) -> bool {
    exists|button: u8| #[trigger] held.contains(button) && button_up(action, button)
}

/// The key comes up by one of the actions.
pub open spec fn key_comes_up(actions: Seq<Action>, code: u16) -> bool {
    exists|i: int| 0 <= i < actions.len() && key_up(#[trigger] actions[i], code)
}

/// The button comes up by one of the actions.
pub open spec fn button_comes_up(actions: Seq<Action>, button: u8) -> bool {
    exists|i: int| 0 <= i < actions.len() && button_up(#[trigger] actions[i], button)
}

proof fn keys_come_up(backend: Backend, held: Set<u16>, bound: int)
    requires
        bound <= 128,
        backend != Backend::Test,
        forall|k: u16| #[trigger] held.contains(k) ==> 1 <= k <= 127,
    ensures
        forall|i: int|
            0 <= i < crate::capture::key_releases(backend, held, bound).len() ==> some_key_up(
                #[trigger] crate::capture::key_releases(backend, held, bound)[i],
                held,
            ),
        forall|code: u16| #[trigger]
            held.contains(code) && code < bound ==> key_comes_up(
                crate::capture::key_releases(backend, held, bound),
                code,
            ),
    decreases bound,
{
    let all = crate::capture::key_releases(backend, held, bound);
    if bound > 0 {
        keys_come_up(backend, held, bound - 1);
        let fewer = crate::capture::key_releases(backend, held, bound - 1);
        let top = (bound - 1) as u16;
        assert forall|i: int| 0 <= i < all.len() implies some_key_up(#[trigger] all[i], held) by {
            if i < fewer.len() {
                assert(all[i] == fewer[i]);
            } else {
                assert(held.contains(top) && key_up(all[i], top));
            }
        }
        assert forall|code: u16| #[trigger] held.contains(code) && code < bound implies key_comes_up(
            all,
            code,
        ) by {
            if code == top {
                assert(key_up(all[fewer.len() as int], code));
            } else {
                let i = choose|i: int| 0 <= i < fewer.len() && key_up(#[trigger] fewer[i], code);
                assert(all[i] == fewer[i]);
            }
        }
    }
}

proof fn buttons_come_up(backend: Backend, held: Set<u8>, bound: int)
    requires
        bound <= 4,
        backend != Backend::Test,
        forall|b: u8| #[trigger] held.contains(b) ==> 1 <= b <= 3,
    ensures
        forall|i: int|
            0 <= i < crate::capture::button_releases(backend, held, bound).len()
                ==> some_button_up(
                #[trigger] crate::capture::button_releases(backend, held, bound)[i],
                held,
            ),
        forall|button: u8| #[trigger]
            held.contains(button) && button < bound ==> button_comes_up(
                crate::capture::button_releases(backend, held, bound),
                button,
            ),
    decreases bound,
{
    let all = crate::capture::button_releases(backend, held, bound);
    if bound > 0 {
        buttons_come_up(backend, held, bound - 1);
        let fewer = crate::capture::button_releases(backend, held, bound - 1);
        let top = (bound - 1) as u8;
        assert forall|i: int| 0 <= i < all.len() implies some_button_up(
            #[trigger] all[i],
            held,
        ) by {
            if i < fewer.len() {
                assert(all[i] == fewer[i]);
            } else {
                assert(held.contains(top) && button_up(all[i], top));
            }
        }
        assert forall|button: u8| #[trigger]
            held.contains(button) && button < bound implies button_comes_up(all, button) by {
            if button == top {
                assert(button_up(all[fewer.len() as int], button));
            } else {
                let i = choose|i: int|
                    0 <= i < fewer.len() && button_up(#[trigger] fewer[i], button);
                assert(all[i] == fewer[i]);
            }
        }
    }
}

/// When everything is let go, every key and every button that is held comes up, and
/// nothing else happens.
pub proof fn letting_go_of_everything(capture: Capture, code: u16, button: u8, i: int)
    requires
        capture.wf(),
        capture.backend != Backend::Test,
    ensures
        ({
            let all = capture.reacts(Event::ReleaseAll);
            &&& capture.keys@.contains(code) ==> key_comes_up(all, code)
            &&& capture.buttons@.contains(button) ==> button_comes_up(all, button)
            &&& 0 <= i < all.len() ==> some_key_up(all[i], capture.keys@) || some_button_up(
                all[i],
                capture.buttons@,
            )
        }),
{
    keys_come_up(capture.backend, capture.keys@, 128);
    buttons_come_up(capture.backend, capture.buttons@, 4);
    let all = capture.reacts(Event::ReleaseAll);
    let a = crate::capture::key_releases(capture.backend, capture.keys@, 128);
    let b = crate::capture::button_releases(capture.backend, capture.buttons@, 4);
    assert(all == a + b);
    if capture.keys@.contains(code) {
        let k = choose|k: int| 0 <= k < a.len() && key_up(#[trigger] a[k], code);
        assert(all[k] == a[k]);
    }
    if capture.buttons@.contains(button) {
        let k = choose|k: int| 0 <= k < b.len() && button_up(#[trigger] b[k], button);
        assert(all[a.len() + k] == b[k]);
    }
    if 0 <= i < all.len() {
        if i < a.len() {
            assert(all[i] == a[i]);
        } else {
            assert(all[i] == b[i - a.len()]);
        }
    }
}

} // verus!
