//! Additional windows: each shows one monitor of the host, and what is done in it
//! happens there.
use crate::client::MouseButton;
use crate::error::Error;
use crate::laws::pointer::numbered;
use crate::media::Image;
use crate::multi_display::{
    closings, count_without, end_of, ended, following, frame_complaint, frame_valid, nth_without,
    of_generation, on_toolbar, pairs, plane_complaint, plane_valid, remotes, shared, strip_of,
    Command, DisplayEvent, Displays, Draw, Reaction, Screen, Shown, Stream, WindowInput,
};
use crate::protocol::{key_code, video_size_valid, Desktop, Event};
use vstd::prelude::*;

verus! {

/// The point is below every toolbar, or above the window.
pub open spec fn clear_of_toolbars(y: i32) -> bool {
    y < 0 || y >= 82
}

/// What happens at a window moves the pointer on the monitor that this window shows, and
/// on no other, to a place that the window has said.
pub proof fn a_window_moves_the_pointer_of_its_monitor(
    before: Displays,
    position: int,
    input: WindowInput,
    monitors: usize,
    now: u128,
    after: Displays,
    r: Reaction,
    i: int,
)
    requires
        0 <= position < before.screens@.len(),
        before.stepped(position, input, monitors, now, after, r),
        0 <= i < r.commands@.len(),
    ensures
        r.commands@[i] matches Command::Motion { index, x, y } ==> {
            &&& index == before.screens@[position].remote
            &&& before.screens@[position].ready
            &&& match input {
                WindowInput::Motion { at, .. } => at == Some((x, y)),
                WindowInput::ButtonDown { at, .. } => at == Some((x, y)),
                WindowInput::ButtonUp { at, .. } => at == Some((x, y)),
                WindowInput::Wheel { events } => events@.contains(Event::Motion { x, y }),
                _ => false,
            }
        },
{
    let rest = closings(before.screens@);
    let screen = before.screens@[position].touched(input, now);
    if input is Close {
        assert(r.commands@[i] == rest[i]);
    } else if on_toolbar(screen, input) {
        if i >= 1 && input->ButtonDown_x >= 260 {
            assert(r.commands@[i] == rest[i - 1]);
        }
    } else {
        if let WindowInput::Wheel { events } = input {
            if screen.ready {
                assert(r.commands@[i] == screen.turned(events@[i]));
                assert(events@.contains(events@[i]));
            }
        }
    }
}

/// A window belongs to the screen with its number.
pub proof fn a_window_is_found_by_its_number(displays: Displays, id: u32, position: int)
    ensures
        displays.is_at(id, position) ==> 0 <= position < displays.screens@.len()
            && displays.screens@[position].id == id,
        displays.has(id) <==> exists|p: int|
            0 <= p < displays.screens@.len() && (#[trigger] displays.screens@[p]).id == id,
{
}

/// The pointer moves on the picture: it moves there on the host.
pub proof fn pointing_at_a_picture(
    before: Displays,
    position: int,
    x: i32,
    y: i32,
    buttons: bool,
    at: Option<(u64, u64)>,
    monitors: usize,
    now: u128,
    after: Displays,
    r: Reaction,
)
    requires
        0 <= position < before.screens@.len(),
        before.screens@[position].ready,
        clear_of_toolbars(y),
        before.stepped(
            position,
            WindowInput::Motion { x, y, buttons, at },
            monitors,
            now,
            after,
            r,
        ),
    ensures
        at matches Some((px, py)) ==> r.commands@ == seq![
            Command::Motion { index: before.screens@[position].remote, x: px, y: py },
        ],
        at is None ==> r.commands@.len() == 0,
        after.screens@[position].pointer == Some((x, y)),
        after.screens@[position].buttons == buttons,
{
    if let Some((px, py)) = at {
        assert(r.commands@ =~= seq![
            Command::Motion { index: before.screens@[position].remote, x: px, y: py },
        ]);
    }
}

/// A button goes down on the picture: the pointer goes there and the button goes down.
/// Beside the picture nothing happens.
pub proof fn pressing_on_a_picture(
    before: Displays,
    position: int,
    button: MouseButton,
    x: i32,
    y: i32,
    at: Option<(u64, u64)>,
    n: u8,
    monitors: usize,
    now: u128,
    after: Displays,
    r: Reaction,
)
    requires
        0 <= position < before.screens@.len(),
        before.screens@[position].ready,
        clear_of_toolbars(y),
        before.stepped(
            position,
            WindowInput::ButtonDown { button, x, y, at },
            monitors,
            now,
            after,
            r,
        ),
    ensures
        at matches Some((px, py)) ==> {
            &&& numbered(button, n) ==> r.commands@ == seq![
                Command::Motion { index: before.screens@[position].remote, x: px, y: py },
                Command::Input(Event::Button { button: n, down: true }),
            ]
            &&& button == MouseButton::Other ==> r.commands@.len() == 1
        },
        at is None ==> r.commands@.len() == 0,
        after.screens@[position].pointer == Some((x, y)),
        after.screens@[position].buttons,
{
    if let Some((px, py)) = at {
        if numbered(button, n) {
            assert(r.commands@ =~= seq![
                Command::Motion { index: before.screens@[position].remote, x: px, y: py },
                Command::Input(Event::Button { button: n, down: true }),
            ]);
        }
    }
}

/// A button is let go on the picture: the pointer goes there and the button comes up.
/// Beside the picture everything is let go, so that nothing stays down.
pub proof fn letting_go_on_a_picture(
    before: Displays,
    position: int,
    button: MouseButton,
    x: i32,
    y: i32,
    at: Option<(u64, u64)>,
    n: u8,
    monitors: usize,
    now: u128,
    after: Displays,
    r: Reaction,
)
    requires
        0 <= position < before.screens@.len(),
        before.screens@[position].ready,
        clear_of_toolbars(y),
        before.stepped(
            position,
            WindowInput::ButtonUp { button, x, y, at },
            monitors,
            now,
            after,
            r,
        ),
    ensures
        at matches Some((px, py)) ==> {
            &&& numbered(button, n) ==> r.commands@ == seq![
                Command::Motion { index: before.screens@[position].remote, x: px, y: py },
                Command::Input(Event::Button { button: n, down: false }),
            ]
            &&& button == MouseButton::Other ==> r.commands@.len() == 1
        },
        at is None ==> r.commands@ == seq![Command::Input(Event::ReleaseAll)],
        after.screens@[position].pointer == Some((x, y)),
        !after.screens@[position].buttons,
{
    if let Some((px, py)) = at {
        if numbered(button, n) {
            assert(r.commands@ =~= seq![
                Command::Motion { index: before.screens@[position].remote, x: px, y: py },
                Command::Input(Event::Button { button: n, down: false }),
            ]);
        }
    } else {
        assert(r.commands@ =~= seq![Command::Input(Event::ReleaseAll)]);
    }
}

/// What the toolbar covers does not reach the host: a motion and a press are not sent,
/// and a release there lets go of everything.
pub proof fn covered_points_stay_local(
    before: Displays,
    position: int,
    input: WindowInput,
    y: i32,
    monitors: usize,
    now: u128,
    after: Displays,
    r: Reaction,
    i: int,
)
    requires
        0 <= position < before.screens@.len(),
        before.stepped(position, input, monitors, now, after, r),
        match input {
            WindowInput::Motion { y: at_y, .. } => at_y == y,
            WindowInput::ButtonDown { y: at_y, .. } => at_y == y,
            WindowInput::ButtonUp { y: at_y, .. } => at_y == y,
            _ => false,
        },
        0 <= y < 4 || before.screens@[position].touched(input, now).chrome.visible && 0 <= y < 82,
        0 <= i < r.commands@.len(),
    ensures
        r.commands@[i] == Command::Input(Event::ReleaseAll) || (r.commands@[i] matches
            Command::Stream { enabled, .. } && !enabled),
        input is Motion ==> r.commands@.len() == 0,
{
    let screen = before.screens@[position].touched(input, now);
    if on_toolbar(screen, input) {
        crate::multi_display::toolbar_clicks_stay_local(
            before,
            position,
            input,
            monitors,
            now,
            after,
            r,
            i,
        );
    }
}

/// Keys go down and come up as themselves, and repeats are not sent.
pub proof fn typing_in_a_window(
    before: Displays,
    position: int,
    input: WindowInput,
    scancode: usize,
    code: u16,
    monitors: usize,
    now: u128,
    after: Displays,
    r: Reaction,
)
    requires
        0 <= position < before.screens@.len(),
        before.screens@[position].ready,
        before.stepped(position, input, monitors, now, after, r),
        key_code(scancode as int) == Some(code),
    ensures
        input == (WindowInput::KeyDown { scancode: Some(scancode), repeat: false })
            ==> r.commands@ == seq![Command::Input(Event::Key { code, down: true })],
        input == (WindowInput::KeyUp { scancode: Some(scancode) }) ==> r.commands@ == seq![
            Command::Input(Event::Key { code, down: false }),
        ],
        input == (WindowInput::KeyDown { scancode: Some(scancode), repeat: true })
            ==> r.commands@.len() == 0,
{
    if input == (WindowInput::KeyDown { scancode: Some(scancode), repeat: false }) {
        assert(r.commands@ =~= seq![Command::Input(Event::Key { code, down: true })]);
    }
    if input == (WindowInput::KeyUp { scancode: Some(scancode) }) {
        assert(r.commands@ =~= seq![Command::Input(Event::Key { code, down: false })]);
    }
}

/// The steps of the wheel are sent one by one in their order, and a motion among them
/// is one on the monitor that the window shows.
pub proof fn scrolling_in_a_window(
    before: Displays,
    position: int,
    events: Vec<Event>,
    monitors: usize,
    now: u128,
    after: Displays,
    r: Reaction,
    i: int,
)
    requires
        0 <= position < before.screens@.len(),
        before.screens@[position].ready,
        before.stepped(position, WindowInput::Wheel { events }, monitors, now, after, r),
    ensures
        r.commands@.len() == events@.len(),
        0 <= i < events@.len() ==> match events@[i] {
            Event::Motion { x, y } => r.commands@[i] == (Command::Motion {
                index: before.screens@[position].remote,
                x,
                y,
            }),
            event => r.commands@[i] == Command::Input(event),
        },
{
    let screen = before.screens@[position].touched(WindowInput::Wheel { events }, now);
    if 0 <= i < events@.len() {
        assert(r.commands@[i] == screen.turned(events@[i]));
    }
}

/// A window that gains or loses the focus lets go of everything, forgets where the
/// pointer was, and begins the wheel anew; nothing else begins the wheel anew.
pub proof fn focus_starts_afresh(
    before: Displays,
    position: int,
    input: WindowInput,
    monitors: usize,
    now: u128,
    after: Displays,
    r: Reaction,
)
    requires
        0 <= position < before.screens@.len(),
        before.stepped(position, input, monitors, now, after, r),
    ensures
        r.handled,
        r.reset_wheel <==> input is Focus,
        input is Focus ==> {
            &&& r.commands@ == seq![Command::Input(Event::ReleaseAll)]
            &&& after.screens@[position].pointer is None
            &&& !after.screens@[position].buttons
        },
        input is Leave ==> r.commands@.len() == 0 && after.screens@[position].pointer is None
            && after.screens@[position].buttons == before.screens@[position].buttons,
{
    if input is Focus {
        assert(r.commands@ =~= seq![Command::Input(Event::ReleaseAll)]);
    }
}

/// What happens at one window leaves the others as they are, and the window keeps its
/// number and its display; unless all are closed.
pub proof fn windows_do_not_disturb_each_other(
    before: Displays,
    position: int,
    input: WindowInput,
    monitors: usize,
    now: u128,
    after: Displays,
    r: Reaction,
    j: int,
)
    requires
        0 <= position < before.screens@.len(),
        before.stepped(position, input, monitors, now, after, r),
        0 <= j < before.screens@.len(),
    ensures
        after.codec == before.codec,
        after.dynamic_range == before.dynamic_range,
        after.screens@.len() == 0 || after.screens@.len() == before.screens@.len(),
        after.screens@.len() == 0 <==> input is Close || (input matches WindowInput::ButtonDown {
            button,
            x,
            y,
            ..
        } && button == MouseButton::Left && before.screens@[position].chrome.visible && 0 <= y < 82
            && x >= 260),
        after.screens@.len() > 0 ==> {
            &&& j != position ==> after.screens@[j] == before.screens@[j]
            &&& after.screens@[position].id == before.screens@[position].id
            &&& after.screens@[position].local == before.screens@[position].local
            &&& r.restart is None ==> after.screens@[position].remote
                == before.screens@[position].remote && after.screens@[position].stream
                == before.screens@[position].stream && after.screens@[position].ready
                == before.screens@[position].ready
        },
{
}

/// When all windows close, everything is let go and the stream of every window ends.
pub proof fn closing_ends_everything(
    before: Displays,
    position: int,
    input: WindowInput,
    monitors: usize,
    now: u128,
    after: Displays,
    r: Reaction,
    j: int,
)
    requires
        0 <= position < before.screens@.len(),
        before.stepped(position, input, monitors, now, after, r),
        after.screens@.len() == 0,
        0 <= j < before.screens@.len(),
    ensures
        r.commands@[0] == Command::Input(Event::ReleaseAll),
        r.commands@.contains(
            Command::Stream { index: before.screens@[j].remote, enabled: false },
        ),
        r.restart is None,
{
    let rest = closings(before.screens@);
    assert(rest[j + 1] == end_of(before.screens@[j]));
    if input is Close {
        assert(r.commands@[j + 1] == rest[j + 1]);
    } else {
        assert(r.commands@[j + 2] == rest[j + 1]);
    }
}

/// All that is sent when windows close: one release of everything, and then the end of
/// each stream.
pub proof fn closings_are_ends(screens: Seq<Screen>, i: int)
    ensures
        closings(screens).len() == screens.len() + 1,
        closings(screens)[0] == Command::Input(Event::ReleaseAll),
        0 <= i < screens.len() ==> closings(screens)[i + 1] == (Command::Stream {
            index: screens[i].remote,
            enabled: false,
        }),
{
}

/// A click on the left of the toolbar turns a window with a picture to the next
/// monitor: its stream begins anew there, and the old one ends unless another window
/// shows it too.
pub proof fn the_toolbar_turns_to_the_next_monitor(
    before: Displays,
    position: int,
    x: i32,
    y: i32,
    at: Option<(u64, u64)>,
    monitors: usize,
    now: u128,
    after: Displays,
    r: Reaction,
)
    requires
        0 <= position < before.screens@.len(),
        before.screens@.len() <= usize::MAX,
        before.screens@[position].chrome.visible,
        0 <= y < 82,
        x < 260,
        before.stepped(
            position,
            WindowInput::ButtonDown { button: MouseButton::Left, x, y, at },
            monitors,
            now,
            after,
            r,
        ),
    ensures
        ({
            let old_one = before.screens@[position].remote;
            let turns = before.screens@[position].ready && monitors > 1 && old_one < monitors;
            let elsewhere = exists|j: int|
                0 <= j < before.screens@.len() && j != position && (
                #[trigger] before.screens@[j]).remote == old_one;
            &&& r.restart == if turns {
                Some(position as usize)
            } else {
                None
            }
            &&& turns ==> {
                &&& after.screens@[position].remote == if old_one + 1 < monitors {
                    old_one + 1
                } else {
                    0
                }
                &&& !after.screens@[position].ready
                &&& after.screens@[position].stream is None
                &&& after.screens@[position].frame == Shown::Nothing
                &&& after.screens@[position].texture is None
                &&& after.screens@[position].error is None
                &&& after.screens@[position].started == now
                &&& !after.screens@[position].running
                &&& r.commands@.contains(Command::Stream { index: old_one, enabled: false })
                    <==> !elsewhere
            }
            &&& r.commands@.len() >= 1 && r.commands@[0] == Command::Input(Event::ReleaseAll)
            &&& !turns ==> r.commands@.len() == 1
        }),
{
    let old_one = before.screens@[position].remote;
    the_following_monitor(old_one, monitors);
    let all = remotes(before.screens@);
    let elsewhere = exists|j: int|
        0 <= j < before.screens@.len() && j != position && (#[trigger] before.screens@[j]).remote
            == old_one;
    if elsewhere {
        let j = choose|j: int|
            0 <= j < before.screens@.len() && j != position && (
            #[trigger] before.screens@[j]).remote == old_one;
        assert(all[j] == all[position]);
    }
    if shared(all, position) {
        let j = choose|j: int|
            0 <= j < all.len() && j != position && #[trigger] all[j] == all[position];
        assert(before.screens@[j].remote == old_one);
    }
    if r.commands@.len() == 2 {
        assert(r.commands@[1] == Command::Stream { index: old_one, enabled: false });
    }
}

/// The monitor after one is the one with the next number, and the first after the last.
pub proof fn the_following_monitor(current: usize, count: usize)
    ensures
        following(current, count) is Some <==> count > 1 && current < count,
        count > 1 && current + 1 < count ==> following(current, count) == Some(
            (current + 1) as usize,
        ),
        count > 1 && current + 1 == count ==> following(current, count) == Some(0usize),
{
    if count > 1 && current + 1 < count {
        vstd::arithmetic::div_mod::lemma_small_mod((current + 1) as nat, count as nat);
    } else if count > 1 && current + 1 == count {
        vstd::arithmetic::div_mod::lemma_mod_self_0(count as int);
    }
}

/// The numbers without one are all the others, in their order.
pub proof fn the_others_in_their_order(i: int, j: int, k: int, one: int, count: int)
    requires
        0 <= i < j,
        0 <= k,
        k != one,
    ensures
        0 <= nth_without(i, one) < nth_without(j, one),
        nth_without(i, one) != one,
        exists|n: int| 0 <= n <= k && #[trigger] nth_without(n, one) == k,
        nth_without(i, one) < count <==> i < count_without(count, one),
{
    if 0 <= one < k {
        assert(nth_without(k - 1, one) == k);
    } else {
        assert(nth_without(k, one) == k);
    }
}

/// As many displays get a monitor as there are of both besides the ones in use, four at
/// most.
pub proof fn displays_and_monitors_are_paired(
    displays: int,
    primary: int,
    monitors: int,
    active: int,
    i: int,
)
    requires
        0 <= i,
    ensures
        i < pairs(displays, primary, monitors, active) <==> i < 4 && nth_without(i, primary)
            < displays && nth_without(i, active) < monitors,
        pairs(displays, primary, monitors, active) >= 0,
{
}

/// Every byte of every row of a plane that is accepted is there, and a plane that has
/// them all is accepted.
pub proof fn a_plane_holds_its_rows(available: int, stride: int, row: int, rows: int, r: int, c: int)
    requires
        0 < row,
        0 <= available,
    ensures
        plane_valid(available, stride, row, rows) && 0 <= r < rows && 0 <= c < row ==> 0 <= r
            * stride + c < available,
        plane_valid(available, stride, row, rows) <==> rows > 0 && row <= stride <= 0x7fff_ffff && (
        rows - 1) * stride + (row - 1) < available,
        available <= usize::MAX ==> (plane_valid(available, stride, row, rows) <==> plane_complaint(
            available,
            stride,
            row,
            rows,
        ) is None),
{
    assert((rows - 1) * stride == stride * (rows - 1)) by (nonlinear_arith);
    if 0 <= r < rows && 0 <= c < row && row <= stride {
        assert(0 <= r * stride <= (rows - 1) * stride) by (nonlinear_arith)
            requires
                0 <= r <= rows - 1,
                0 <= stride,
        ;
    }
}

/// A picture that is accepted has every sample of every pixel: three in a packed one; in
/// one with planes a luma sample each, and a pair of chroma samples for two by two.
pub proof fn a_picture_holds_its_pixels(frame: Image, x: int, y: int, k: int)
    requires
        frame_valid(frame),
        0 <= x < frame.width,
        0 <= y < frame.height,
    ensures
        frame.nv12 is None && 0 <= k < 3 ==> y * frame.stride + 3 * x + k < frame.data@.len(),
        frame.nv12 matches Some(planes) ==> {
            &&& frame.width % 2 == 0 && frame.height % 2 == 0
            &&& y * planes.y_stride + x < planes.y@.len()
            &&& 0 <= k < 2 ==> (y / 2) * planes.uv_stride + 2 * (x / 2) + k < planes.uv@.len()
        },
{
    match frame.nv12 {
        None => {
            if 0 <= k < 3 {
                a_plane_holds_its_rows(
                    frame.data@.len() as int,
                    frame.stride as int,
                    frame.width * 3,
                    frame.height as int,
                    y,
                    3 * x + k,
                );
            }
        },
        Some(planes) => {
            a_plane_holds_its_rows(
                planes.y@.len() as int,
                planes.y_stride as int,
                frame.width as int,
                frame.height as int,
                y,
                x,
            );
            a_plane_holds_its_rows(
                planes.uv@.len() as int,
                planes.uv_stride as int,
                frame.width as int,
                frame.height as int / 2,
                y / 2,
                2 * (x / 2) + k,
            );
        },
    }
}

/// A picture is taken where it is of the group that the host has named or a later one,
/// of the size that it has said, and from a decoder that was not restarted since.
pub proof fn only_current_pictures_are_taken(
    screen: Screen,
    frame: Image,
    recoveries: u64,
    group: u64,
    later: u64,
)
    ensures
        screen.accepts(frame, recoveries) <==> (screen.stream matches Some(stream)
            && frame.video_group is Some && frame.video_group->0 >= stream.video_start_group
            && frame.width == stream.width && frame.height == stream.height
            && frame.decoder_recovery == recoveries),
        of_generation(group, Some(group)),
        !of_generation(group, None),
        group < later ==> of_generation(group, Some(later)) && !of_generation(later, Some(group)),
{
}

/// A screen shows the picture that it took, at that picture's size, and has a target for
/// input once a picture is shown that needs no presenter. A screen without a new picture
/// goes on with the old one.
pub proof fn a_picture_is_shown(screen: Screen, frame: Image, recoveries: u64, now: u128)
    ensures
        ({
            let shown = screen.refreshed(Some(frame), recoveries, now);
            &&& screen.accepts(frame, recoveries) ==> {
                &&& shown.size == (frame.width, frame.height)
                &&& shown.ready == (!frame.surface && frame.hdr is None)
                &&& shown.frame == Shown::Plain <==> !frame.surface && frame.hdr is None
                &&& shown.frame == Shown::Native <==> frame.surface || frame.hdr is Some
                &&& shown.dirty
            }
            &&& !screen.accepts(frame, recoveries) ==> {
                &&& shown.size == screen.size
                &&& shown.ready == screen.ready
                &&& shown.frame == screen.frame
            }
            &&& shown.remote == screen.remote && shown.id == screen.id && shown.local
                == screen.local && shown.stream == screen.stream && shown.running
                == screen.running && shown.texture == screen.texture
        }),
        screen.refreshed(None, recoveries, now).size == screen.size,
        screen.refreshed(None, recoveries, now).ready == screen.ready,
        screen.refreshed(None, recoveries, now).frame == screen.frame,
        screen.late(now) <==> screen.error is None && !screen.ready && now - screen.started
            >= 20_000_000_000,
{
}

/// A stream that the host describes is the stream of that description, and its picture
/// is awaited; the window stays what it is.
pub proof fn a_description_is_taken_over(screen: Screen, stream: Stream)
    ensures
        screen.announced(stream).stream == Some(stream),
        !screen.announced(stream).ready,
        screen.announced(stream).frame == Shown::Nothing,
        screen.announced(stream).texture is None,
        screen.announced(stream).remote == screen.remote,
        screen.announced(stream).id == screen.id,
        screen.announced(stream).local == screen.local,
        screen.announced(stream).running == screen.running,
        screen.announced(stream).error == screen.error,
{
}

/// A stream that ends leaves nothing to show and no target for input; the first reason
/// stays. A failure of the window itself is told in any case, and shows its toolbar.
pub proof fn an_ended_stream_shows_nothing(screen: Screen, reason: String, now: u128)
    ensures
        ({
            let halted = screen.halted(reason);
            let failed = screen.failed(reason, now);
            &&& !halted.ready && !halted.running && halted.frame == Shown::Nothing
                && halted.texture is None
            &&& halted.error == Some(
                match screen.error {
                    Some(first) => first,
                    None => reason,
                },
            )
            &&& !failed.ready && !failed.running && failed.frame == Shown::Nothing
                && failed.texture is None
            &&& failed.error == Some(reason)
            &&& failed.chrome.visible && failed.chrome.fullscreen && failed.chrome.last_interaction
                == now
            &&& halted.chrome == screen.chrome
            &&& halted.id == screen.id && failed.id == screen.id
            &&& halted.remote == screen.remote && failed.remote == screen.remote
            &&& halted.local == screen.local && failed.local == screen.local
            &&& halted.stream == screen.stream && failed.stream == screen.stream
        }),
{
}

/// After failures the streams end that no running window needs, and only those.
pub proof fn unneeded_streams_end(screens: Seq<Screen>, failed: Seq<usize>, index: usize)
    ensures
        ended(screens, failed).contains(Command::Stream { index, enabled: false }) <==> (
        failed.contains(index) && !(exists|i: int|
            0 <= i < screens.len() && (#[trigger] screens[i]).remote == index
                && screens[i].running)),
        forall|i: int|
            0 <= i < ended(screens, failed).len() ==> ((#[trigger] ended(screens, failed)[i])
                matches Command::Stream { enabled, .. } && !enabled),
    decreases failed.len(),
{
    if failed.len() > 0 {
        let fewer = failed.drop_last();
        unneeded_streams_end(screens, fewer, index);
        let wanted = Command::Stream { index, enabled: false };
        let a = ended(screens, fewer);
        let b = ended(screens, failed);
        if failed.contains(index) {
            let k = choose|k: int| 0 <= k < failed.len() && failed[k] == index;
            if k < fewer.len() {
                assert(fewer[k] == index);
            } else {
                assert(failed.last() == index);
            }
        }
        if fewer.contains(index) {
            let k = choose|k: int| 0 <= k < fewer.len() && fewer[k] == index;
            assert(failed[k] == index);
        }
        if a.contains(wanted) {
            let k = choose|k: int| 0 <= k < a.len() && a[k] == wanted;
            assert(b[k] == wanted);
        }
        if b.len() > a.len() {
            assert(b == a.push(Command::Stream { index: failed.last(), enabled: false }));
            assert(b[a.len() as int] == Command::Stream { index: failed.last(), enabled: false });
            if failed.last() == index {
                assert(failed[failed.len() - 1] == index);
            }
        }
        if b.contains(wanted) {
            let k = choose|k: int| 0 <= k < b.len() && b[k] == wanted;
            if k < a.len() {
                assert(a[k] == wanted);
            }
        }
        assert forall|i: int| 0 <= i < b.len() implies ((#[trigger] b[i]) matches Command::Stream {
            enabled,
            ..
        } && !enabled) by {
            if i < a.len() {
                assert(b[i] == a[i]);
            }
        }
    }
}

// ------------------------------------------------------------- all the windows

/// An event at a window moves the pointer of the monitor that the window with this
/// number shows, and of no other; an event at no window does nothing.
pub proof fn events_go_to_their_window(
    before: Displays,
    id: u32,
    input: WindowInput,
    monitors: usize,
    now: u128,
    after: Displays,
    r: Reaction,
    position: int,
    i: int,
)
    requires
        before.happened(DisplayEvent::Window { id, input }, monitors, now, after, r),
    ensures
        before.is_at(id, position) && 0 <= i < r.commands@.len() ==> (r.commands@[i] matches
            Command::Motion { index, .. } ==> index == before.screens@[position].remote),
        (forall|j: int|
            0 <= j < before.screens@.len() ==> (#[trigger] before.screens@[j]).id != id)
            ==> !r.handled && r.commands@.len() == 0 && r.restart is None && after == before,
{
    if before.is_at(id, position) && 0 <= i < r.commands@.len() {
        assert(before.has(id));
        let found = choose|found: int| #[trigger]
            before.is_at(id, found) && before.stepped(found, input, monitors, now, after, r);
        assert(before.is_at(id, found));
        assert(found == position) by {
            if found < position {
                assert(before.screens@[found].id != id);
            } else if position < found {
                assert(before.screens@[position].id != id);
            }
        }
        a_window_moves_the_pointer_of_its_monitor(
            before,
            position,
            input,
            monitors,
            now,
            after,
            r,
            i,
        );
    }
}

/// The first window with a number is the one that is meant, and what is pointed at there
/// is pointed at on its monitor.
pub proof fn pointing_in_a_window(
    before: Displays,
    id: u32,
    position: int,
    x: i32,
    y: i32,
    buttons: bool,
    px: u64,
    py: u64,
    monitors: usize,
    now: u128,
    after: Displays,
    r: Reaction,
)
    requires
        before.is_at(id, position),
        before.screens@[position].ready,
        clear_of_toolbars(y),
        before.happened(
            DisplayEvent::Window {
                id,
                input: WindowInput::Motion { x, y, buttons, at: Some((px, py)) },
            },
            monitors,
            now,
            after,
            r,
        ),
    ensures
        r.commands@ == seq![
            Command::Motion { index: before.screens@[position].remote, x: px, y: py },
        ],
{
    let input = WindowInput::Motion { x, y, buttons, at: Some((px, py)) };
    assert(before.has(id));
    let found = choose|found: int| #[trigger]
        before.is_at(id, found) && before.stepped(found, input, monitors, now, after, r);
    assert(found == position) by {
        if found < position {
            assert(before.screens@[found].id != id);
        } else if position < found {
            assert(before.screens@[position].id != id);
        }
    }
    pointing_at_a_picture(
        before,
        position,
        x,
        y,
        buttons,
        Some((px, py)),
        monitors,
        now,
        after,
        r,
    );
}

/// A renderer that was reset has lost the textures of all windows, and everything is drawn
/// anew; a change of displays closes all windows.
pub proof fn renderers_and_displays_change(
    before: Displays,
    monitors: usize,
    now: u128,
    after: Displays,
    r: Reaction,
    i: int,
)
    ensures
        before.happened(DisplayEvent::RendererReset, monitors, now, after, r) ==> {
            &&& r.commands@.len() == 0
            &&& after.screens@.len() == before.screens@.len()
            &&& 0 <= i < before.screens@.len() ==> after.screens@[i].texture is None
                && after.screens@[i].dirty && after.screens@[i].id == before.screens@[i].id
                && after.screens@[i].remote == before.screens@[i].remote && after.screens@[i].frame
                == before.screens@[i].frame && after.screens@[i].ready == before.screens@[i].ready
        },
        before.happened(DisplayEvent::DisplayChanged, monitors, now, after, r) ==> {
            &&& after.screens@.len() == 0
            &&& r.restart is None
        },
        before.happened(DisplayEvent::Other, monitors, now, after, r) ==> after == before
            && r.commands@.len() == 0,
{
}

/// A window that is opened shows the monitor it was opened for, in fullscreen; its stream
/// is asked for, and the other windows stay as they are.
pub proof fn a_window_is_opened(
    before: Displays,
    id: u32,
    local: i32,
    remote: usize,
    after: Displays,
    r: Command,
    i: int,
)
    requires
        before.opened(id, local, remote, after, r),
    ensures
        r == (Command::Stream { index: remote, enabled: true }),
        after.screens@.len() == before.screens@.len() + 1,
        0 <= i < before.screens@.len() ==> after.screens@[i] == before.screens@[i],
        ({
            let last = after.screens@[before.screens@.len() as int];
            &&& last.id == id
            &&& last.local == local
            &&& last.remote == remote
            &&& last.running
            &&& !last.ready
            &&& last.frame is Nothing
            &&& last.chrome.fullscreen
            &&& last.error is None
            &&& last.dirty
            &&& last.stream is None
            &&& last.texture is None
            &&& last.pointer is None && !last.buttons
        }),
        after.codec == before.codec && after.dynamic_range == before.dynamic_range,
{
    if 0 <= i < before.screens@.len() {
        assert(after.screens@.drop_last()[i] == before.screens@[i]);
    }
}

/// A description is for the windows of its monitor, and is taken where it is of this
/// session: the codec, the range and the version.
pub proof fn a_monitor_is_described(
    before: Displays,
    index: usize,
    desktop: Desktop,
    after: Displays,
    r: Result<(), Error>,
    i: int,
)
    requires
        before.informed(index, desktop, after, r),
        0 <= i < before.screens@.len(),
    ensures
        r is Ok ==> desktop.version == 2 && desktop.active_monitor == index && desktop.codec
            == before.codec && desktop.dynamic_range == before.dynamic_range,
        desktop.version == 2 && desktop.active_monitor == index && desktop.codec == before.codec
            && desktop.dynamic_range == before.dynamic_range && video_size_valid(
            desktop.width,
            desktop.height,
        ) ==> r is Ok,
        r is Err ==> after == before,
        !video_size_valid(desktop.width, desktop.height) ==> r == Err::<(), Error>(
            Error::VideoSize,
        ),
        r is Ok && before.screens@[i].remote == index ==> {
            &&& after.screens@[i].stream matches Some(stream) && stream.width == desktop.width
                && stream.height == desktop.height && stream.video_start_group
                == desktop.video_start_group
            &&& !after.screens@[i].ready
            &&& after.screens@[i].frame is Nothing
        },
        before.screens@[i].remote != index ==> after.screens@[i] == before.screens@[i],
        after.codec == before.codec && after.dynamic_range == before.dynamic_range,
        r is Ok ==> after.screens@.len() == before.screens@.len(),
        r is Ok && before.screens@[i].remote == index ==> after.screens@[i].dirty
            && after.screens@[i].texture is None && after.screens@[i].id == before.screens@[i].id
            && after.screens@[i].remote == index,
{
}

/// A stream that ended ends the windows of its monitor, and the first reason is kept.
pub proof fn a_stream_ends(
    before: Displays,
    index: usize,
    reason: String,
    after: Displays,
    i: int,
)
    requires
        before.ended(index, reason, after),
        0 <= i < before.screens@.len(),
    ensures
        before.screens@[i].remote == index ==> {
            &&& !after.screens@[i].running && !after.screens@[i].ready
            &&& after.screens@[i].frame is Nothing && after.screens@[i].texture is None
            &&& after.screens@[i].dirty
            &&& after.screens@[i].id == before.screens@[i].id && after.screens@[i].stream
                == before.screens@[i].stream
            &&& before.screens@[i].error is None ==> after.screens@[i].error == Some(reason)
            &&& before.screens@[i].error is Some ==> after.screens@[i].error
                == before.screens@[i].error
        },
        before.screens@[i].remote != index ==> after.screens@[i] == before.screens@[i],
        after.screens@.len() == before.screens@.len(),
        after.codec == before.codec && after.dynamic_range == before.dynamic_range,
{
}

/// A window waits twenty seconds for its first picture and no longer; a picture of another
/// stream, another size or from before a restart is not taken.
pub proof fn drawing_a_window(
    before: Screen,
    frame: Option<&Image>,
    recoveries: u64,
    now: u128,
    after: Screen,
    r: Result<Draw, Error>,
)
    requires
        before.drawn(frame, recoveries, now, after, r),
    ensures
        before.error is None && !before.ready && now >= before.started + 20_000_000_000 ==> r
            == Err::<Draw, Error>(Error::NoConfirmedVideo) && after == before,
        (before.ready || before.error is Some || now < before.started + 20_000_000_000) && frame
            is None ==> r is Ok,
        r is Ok ==> !after.dirty,
        r is Ok && (frame matches Some(f) && before.stream matches Some(stream) && f.width
            == stream.width && f.height == stream.height && f.decoder_recovery == recoveries
            && before.is_current(*f) && !f.surface && f.hdr is None) ==> after.ready
            && after.frame == Shown::Plain,
        r is Ok && !before.ready && (frame matches Some(f) && before.stream matches Some(stream)
            && (f.width != stream.width || f.height != stream.height)) ==> !after.ready,
        r is Ok && !before.ready && (frame matches Some(f) && f.decoder_recovery != recoveries)
            ==> !after.ready,
        r is Ok && !before.ready && frame is None ==> !after.ready,
{
}

/// The strip that reveals the toolbar is 160 by 4 in the middle of the upper edge, or as wide
/// as the window.
pub proof fn the_strip_stands_in_the_middle(window: (u32, u32))
    requires
        1 <= window.0 <= 1_000_000_000,
    ensures
        ({
            let place = strip_of(window);
            let right = window.0 - (place.x + place.width);
            &&& place.y == 0
            &&& place.height == 4
            &&& window.0 >= 160 ==> place.width == 160 && 0 <= place.x <= right <= place.x + 1
            &&& window.0 < 160 ==> place.width == window.0 && place.x == 0
        }),
{
}

/// Each display besides the primary one gets a monitor besides the one that is shown, in
/// their order, once the old windows are closed; without independent streams none does.
pub proof fn displays_get_their_monitors(
    before: Displays,
    multimonitor: bool,
    displays: i32,
    primary: i32,
    desktop: Desktop,
    after: Displays,
    r: (Vec<Command>, Result<Vec<(i32, usize)>, Error>),
    i: int,
    j: int,
)
    requires
        before.planned(multimonitor, displays, primary, desktop, after, r),
    ensures
        after.screens@.len() == 0,
        r.1 is Ok == multimonitor,
        r.1 matches Ok(plan) ==> {
            &&& plan@.len() <= 4
            &&& 0 <= i < plan@.len() ==> plan@[i].0 != primary && plan@[i].1
                != desktop.active_monitor && 0 <= plan@[i].0 < displays && plan@[i].1
                < desktop.monitors@.len()
            &&& 0 <= i < j < plan@.len() ==> plan@[i].0 < plan@[j].0 && plan@[i].1 < plan@[j].1
        },
{
    if let Ok(plan) = r.1 {
        let n = desktop.monitors@.len() as int;
        let active = desktop.active_monitor as int;
        if 0 <= i < plan@.len() {
            displays_and_monitors_are_paired(displays as int, primary as int, n, active, i);
        }
        if 0 <= i < j < plan@.len() {
            displays_and_monitors_are_paired(displays as int, primary as int, n, active, j);
        }
    }
}

/// What is wrong with a plane: how its rows lie, that they cannot be counted, or that some
/// are missing.
pub proof fn why_a_plane_is_refused(available: int, stride: int, row: int, rows: int)
    requires
        0 <= available <= usize::MAX,
    ensures
        rows <= 0 || row > stride || stride > 0x7fff_ffff ==> plane_complaint(
            available,
            stride,
            row,
            rows,
        ) == Some(Error::ImageStride),
        rows > 0 && row <= stride <= 0x7fff_ffff ==> {
            let needed = stride * (rows - 1) + row;
            &&& needed > usize::MAX ==> plane_complaint(available, stride, row, rows) == Some(
                Error::PlaneOverflow,
            )
            &&& available < needed <= usize::MAX ==> plane_complaint(available, stride, row, rows)
                == Some(Error::PlaneTruncated)
            &&& needed <= available ==> plane_complaint(available, stride, row, rows) is None
        },
{
}

/// What is wrong with a picture is said of its size first, then of its shape, then of its
/// planes: luma before chroma.
pub proof fn why_a_frame_is_refused(frame: Image)
    ensures
        !video_size_valid(frame.width, frame.height) ==> frame_complaint(frame) == Some(
            Error::VideoSize,
        ),
        video_size_valid(frame.width, frame.height) && (frame.nv12 matches Some(planes)) ==> {
            let planes = frame.nv12->0;
            let (width, height) = (frame.width as int, frame.height as int);
            let luma = plane_complaint(
                planes.y@.len() as int,
                planes.y_stride as int,
                width,
                height,
            );
            let chroma = plane_complaint(
                planes.uv@.len() as int,
                planes.uv_stride as int,
                width,
                height / 2,
            );
            &&& width % 2 != 0 || height % 2 != 0 ==> frame_complaint(frame) == Some(
                Error::OddNv12,
            )
            &&& width % 2 == 0 && height % 2 == 0 && luma is Some ==> frame_complaint(frame) == luma
            &&& width % 2 == 0 && height % 2 == 0 && luma is None ==> frame_complaint(frame)
                == chroma
        },
        video_size_valid(frame.width, frame.height) && frame.nv12 is None ==> frame_complaint(frame)
            == plane_complaint(
            frame.data@.len() as int,
            frame.stride as int,
            3 * frame.width,
            frame.height as int,
        ),
{
}

/// A stream is asked for again for the monitor of its window, and no other window changes.
pub proof fn a_stream_is_asked_for_again(
    before: Displays,
    position: usize,
    after: Displays,
    r: Command,
    i: int,
)
    requires
        before.again(position, after, r),
        position < before.screens@.len(),
        0 <= i < before.screens@.len(),
    ensures
        r == (Command::Stream { index: before.screens@[position as int].remote, enabled: true }),
        i != position ==> after.screens@[i] == before.screens@[i],
        after.screens@[position as int].running && after.screens@[position as int].dirty
            && after.screens@[position as int].remote == before.screens@[position as int].remote,
        after.screens@.len() == before.screens@.len(),
{
}

/// A texture serves for pictures of its kind and size.
pub proof fn a_texture_serves_its_size(
    before: Screen,
    nv12: bool,
    width: u32,
    height: u32,
    after: Screen,
    r: bool,
)
    requires
        before.uploaded(nv12, width, height, after, r),
    ensures
        before.texture is None ==> r,
        before.texture matches Some(texture) ==> (r <==> texture.nv12 != nv12 || texture.width
            != width || texture.height != height),
        after.texture matches Some(texture) && texture.nv12 == nv12 && texture.width == width
            && texture.height == height,
        after.remote == before.remote && after.frame == before.frame && after.ready
            == before.ready,
{
}

} // verus!
