//! The window with the settings of a host.
use crate::host_admin::{Request, Response};
use crate::host_ui::{self, Action, HostUi, LineView, Target, UiEvent};
use crate::text;
use vstd::prelude::*;
use vstd::utf8::encode_utf8;

verus! {

// --------------------------------------------------------------------- clicks

/// The point lies in the rectangle with this corner and these sides.
pub open spec fn inside(x: int, y: int, left: int, top: int, width: int, height: int) -> bool {
    left <= x < left + width && top <= y < top + height
}

proof fn clicked(before: HostUi, x: i32, y: i32, now: u128, after: HostUi, target: Target)
    requires
        !before.pending,
        before.stepped(UiEvent::Click { x, y }, now, after),
        host_ui::is_target(x as int, y as int, before.rows_left(), target),
    ensures
        match target {
            Target::Field(i) => after == (HostUi { focused: i, confirm: None, ..before }),
            Target::Row(i) => after == (HostUi {
                selected: Some(before.status->0.devices@[before.offset + i].id),
                confirm: None,
                ..before
            }),
            Target::Button(i) => before.pressed(i as int, now, after),
            Target::Nothing => after == before,
        },
{
    let found = choose|found: Target| #[trigger]
        host_ui::is_target(x as int, y as int, before.rows_left(), found) && match found {
            Target::Field(i) => after == (HostUi { focused: i, confirm: None, ..before }),
            Target::Row(i) => after == (HostUi {
                selected: Some(before.status->0.devices@[before.offset + i].id),
                confirm: None,
                ..before
            }),
            Target::Button(i) => before.pressed(i as int, now, after),
            Target::Nothing => after == before,
        };
    host_ui::targets_do_not_overlap(x as int, y as int, before.rows_left(), target, found);
}

/// A click on a field gives it the focus: the name to the left, the password in the
/// middle and its confirmation to the right.
pub proof fn a_click_chooses_a_field(before: HostUi, x: i32, y: i32, now: u128, after: HostUi)
    requires
        before.wf(),
        !before.pending,
        before.stepped(UiEvent::Click { x, y }, now, after),
    ensures
        inside(x as int, y as int, 28, 274, 260, 42) ==> after.focused == 0,
        inside(x as int, y as int, 302, 274, 278, 42) ==> after.focused == 1,
        inside(x as int, y as int, 594, 274, 298, 42) ==> after.focused == 2,
        274 <= y < 316 ==> after.action == before.action && after.values == before.values
            && after.selected == before.selected && after.offset == before.offset,
        !(274 <= y < 316) ==> after.focused == before.focused,
{
    let found = choose|found: Target| #[trigger]
        host_ui::is_target(x as int, y as int, before.rows_left(), found) && match found {
            Target::Field(i) => after == (HostUi { focused: i, confirm: None, ..before }),
            Target::Row(i) => after == (HostUi {
                selected: Some(before.status->0.devices@[before.offset + i].id),
                confirm: None,
                ..before
            }),
            Target::Button(i) => before.pressed(i as int, now, after),
            Target::Nothing => after == before,
        };
    assert(host_ui::is_target(x as int, y as int, before.rows_left(), found));
    if inside(x as int, y as int, 28, 274, 260, 42) {
        clicked(before, x, y, now, after, Target::Field(0));
    } else if inside(x as int, y as int, 302, 274, 278, 42) {
        clicked(before, x, y, now, after, Target::Field(1));
    } else if inside(x as int, y as int, 594, 274, 298, 42) {
        clicked(before, x, y, now, after, Target::Field(2));
    }
}

/// A click on a row selects the device that is shown in it.
pub proof fn a_click_selects_a_device(
    before: HostUi,
    x: i32,
    y: i32,
    now: u128,
    after: HostUi,
    row: int,
)
    requires
        before.wf(),
        !before.pending,
        before.stepped(UiEvent::Click { x, y }, now, after),
        before.status is Some,
        0 <= row < 6,
        before.offset + row < before.status->0.devices@.len(),
        inside(x as int, y as int, 28, 510 + 28 * row, 864, 26),
    ensures
        after.selected == Some(before.status->0.devices@[before.offset + row].id),
        after.action == before.action,
        after.values == before.values,
        after.focused == before.focused,
        after.confirm is None,
{
    clicked(before, x, y, now, after, Target::Row(row as usize));
}

/// The button was clicked before, and waits for the second click.
pub open spec fn waits(ui: HostUi, button: usize) -> bool {
    ui.confirm matches Some((waiting, _)) && waiting == button
}

/// The first click on a button that wants two.
pub open spec fn asks_again(before: HostUi, after: HostUi, button: usize, now: u128) -> bool {
    &&& after.confirm == Some((button, now))
    &&& after.message@
        == "Click that button again to confirm. Revocation disconnects affected devices."@
    &&& after.action == before.action
    &&& after.values == before.values
    &&& after.pairing_code == before.pairing_code
}

/// The service is started by one click and stopped by two.
pub proof fn the_service_is_started_and_stopped(
    before: HostUi,
    x: i32,
    y: i32,
    now: u128,
    after: HostUi,
)
    requires
        before.wf(),
        !before.pending,
        before.stepped(UiEvent::Click { x, y }, now, after),
    ensures
        inside(x as int, y as int, 28, 118, 164, 38) ==> after.action == Some(Action::Service(true))
            && after.confirm is None,
        inside(x as int, y as int, 204, 118, 164, 38) && waits(before, 1) ==> after.action == Some(
            Action::Service(false),
        ) && after.confirm is None,
        inside(x as int, y as int, 204, 118, 164, 38) && !waits(before, 1) ==> asks_again(
            before,
            after,
            1,
            now,
        ),
{
    if inside(x as int, y as int, 28, 118, 164, 38) {
        clicked(before, x, y, now, after, Target::Button(0));
    } else if inside(x as int, y as int, 204, 118, 164, 38) {
        clicked(before, x, y, now, after, Target::Button(1));
    }
}

/// A password is saved where it was entered twice, and leaves the window; one that
/// replaces another needs a second click. Logins are disabled by two clicks.
pub proof fn passwords_are_saved_and_disabled(
    before: HostUi,
    x: i32,
    y: i32,
    now: u128,
    after: HostUi,
)
    requires
        before.wf(),
        !before.pending,
        before.stepped(UiEvent::Click { x, y }, now, after),
    ensures
        inside(x as int, y as int, 28, 330, 206, 40) ==> {
            let replaces = before.status matches Some(status) && status.username is Some;
            if replaces && !waits(before, 2) {
                asks_again(before, after, 2, now)
            } else if before.values@[1]@ == before.values@[2]@ {
                &&& after.action matches Some(
                    Action::Admin(Request::SetPassword { username, password }),
                ) && username@ == before.values@[0]@ && password@ == before.values@[1]@
                &&& after.values@[0] == before.values@[0]
                &&& after.values@[1]@.len() == 0
                &&& after.values@[2]@.len() == 0
                &&& after.confirm is None
            } else {
                &&& after.action is None
                &&& after.values == before.values
                &&& after.message@ == "Passwords do not match."@
                &&& after.confirm is None
            }
        },
        inside(x as int, y as int, 246, 330, 206, 40) && waits(before, 3) ==> after.action == Some(
            Action::Admin(Request::DisablePassword),
        ) && after.confirm is None,
        inside(x as int, y as int, 246, 330, 206, 40) && !waits(before, 3) ==> asks_again(
            before,
            after,
            3,
            now,
        ),
{
    if inside(x as int, y as int, 28, 330, 206, 40) {
        clicked(before, x, y, now, after, Target::Button(2));
    } else if inside(x as int, y as int, 246, 330, 206, 40) {
        clicked(before, x, y, now, after, Target::Button(3));
    }
}

/// Pairing is opened and closed by one click; a closed code is not shown any more.
pub proof fn pairing_is_opened_and_closed(before: HostUi, x: i32, y: i32, now: u128, after: HostUi)
    requires
        before.wf(),
        !before.pending,
        before.stepped(UiEvent::Click { x, y }, now, after),
    ensures
        inside(x as int, y as int, 28, 422, 206, 40) ==> after.action == Some(
            Action::Admin(Request::OpenPairing),
        ) && after.pairing_code == before.pairing_code,
        inside(x as int, y as int, 246, 422, 206, 40) ==> after.action == Some(
            Action::Admin(Request::ClosePairing),
        ) && after.pairing_code is None,
{
    if inside(x as int, y as int, 28, 422, 206, 40) {
        clicked(before, x, y, now, after, Target::Button(4));
    } else if inside(x as int, y as int, 246, 422, 206, 40) {
        clicked(before, x, y, now, after, Target::Button(5));
    }
}

/// Two clicks revoke the device that is selected, or all.
pub proof fn devices_are_revoked(before: HostUi, x: i32, y: i32, now: u128, after: HostUi)
    requires
        before.wf(),
        !before.pending,
        before.stepped(UiEvent::Click { x, y }, now, after),
    ensures
        inside(x as int, y as int, 28, 690, 206, 40) && waits(before, 6) ==> {
            &&& after.action == match before.selected {
                Some(id) => Some(Action::Admin(Request::RevokeDevice { id })),
                None => None,
            }
            &&& after.confirm is None
        },
        inside(x as int, y as int, 28, 690, 206, 40) && !waits(before, 6) ==> asks_again(
            before,
            after,
            6,
            now,
        ),
        inside(x as int, y as int, 246, 690, 206, 40) && waits(before, 7) ==> after.action == Some(
            Action::Admin(Request::RevokeAllDevices),
        ) && after.confirm is None,
        inside(x as int, y as int, 246, 690, 206, 40) && !waits(before, 7) ==> asks_again(
            before,
            after,
            7,
            now,
        ),
{
    if inside(x as int, y as int, 28, 690, 206, 40) {
        clicked(before, x, y, now, after, Target::Button(6));
    } else if inside(x as int, y as int, 246, 690, 206, 40) {
        clicked(before, x, y, now, after, Target::Button(7));
    }
}

/// A click beside everything does nothing, and neither does one while an answer is
/// awaited.
pub proof fn other_clicks_do_nothing(before: HostUi, x: i32, y: i32, now: u128, after: HostUi)
    requires
        before.wf(),
        before.stepped(UiEvent::Click { x, y }, now, after),
    ensures
        before.pending ==> after == before,
        x < 28 || x >= 892 || y < 118 || y >= 730 ==> after == before,
        156 <= y < 274 || 316 <= y < 330 || 370 <= y < 422 || 462 <= y < 510 || 678 <= y < 690
            ==> after == before,
{
    if !before.pending && (x < 28 || x >= 892 || y < 118 || y >= 730 || 156 <= y < 274 || 316 <= y
        < 330 || 370 <= y < 422 || 462 <= y < 510 || 678 <= y < 690) {
        clicked(before, x, y, now, after, Target::Nothing);
    }
}

/// A button lies where a click on it is taken, and its label says what it does.
pub proof fn buttons_are_labelled(index: int)
    requires
        0 <= index < 8,
    ensures
        host_ui::button_text(index) == "Start service"@ <==> index == 0,
        host_ui::button_text(index) == "Stop service"@ <==> index == 1,
        host_ui::button_text(index) == "Save password"@ <==> index == 2,
        host_ui::button_text(index) == "Disable login"@ <==> index == 3,
        host_ui::button_text(index) == "Open pairing"@ <==> index == 4,
        host_ui::button_text(index) == "Close pairing"@ <==> index == 5,
        host_ui::button_text(index) == "Revoke selected"@ <==> index == 6,
        host_ui::button_text(index) == "Revoke all managed"@ <==> index == 7,
        host_ui::button_rect(index).x == if index % 2 == 0 {
            28i32
        } else if index == 1 {
            204i32
        } else {
            246i32
        },
        host_ui::button_rect(index).width == if index < 2 {
            164u32
        } else {
            206u32
        },
        host_ui::button_rect(index).height == if index < 2 {
            38u32
        } else {
            40u32
        },
        host_ui::button_rect(index).y == if index < 2 {
            118i32
        } else if index < 4 {
            330i32
        } else if index < 6 {
            422i32
        } else {
            690i32
        },
{
    reveal_strlit("Start service");
    reveal_strlit("Stop service");
    reveal_strlit("Save password");
    reveal_strlit("Disable login");
    reveal_strlit("Open pairing");
    reveal_strlit("Close pairing");
    reveal_strlit("Revoke selected");
    reveal_strlit("Revoke all managed");
    assert("Start service"@[0] == 'S' && "Start service"@[2] == 'a' && "Start service"@.len() == 13);
    assert("Stop service"@[0] == 'S' && "Stop service"@.len() == 12);
    assert("Save password"@[0] == 'S' && "Save password"@[2] == 'v');
    assert("Disable login"@[0] == 'D');
    assert("Open pairing"@[0] == 'O');
    assert("Close pairing"@[0] == 'C');
    assert("Revoke selected"@[0] == 'R' && "Revoke selected"@[7] == 's');
    assert("Revoke all managed"@[0] == 'R' && "Revoke all managed"@[7] == 'a');
}

/// Fields stand side by side on one line.
pub proof fn fields_stand_side_by_side(index: int)
    requires
        0 <= index < 3,
    ensures
        host_ui::field_rect(index).y == 274,
        host_ui::field_rect(index).height == 42,
        host_ui::field_rect(index).x == if index == 0 {
            28i32
        } else if index == 1 {
            302i32
        } else {
            594i32
        },
        host_ui::field_rect(index).width == if index == 0 {
            260u32
        } else if index == 1 {
            278u32
        } else {
            298u32
        },
{
}

// -------------------------------------------------------------------- writing

/// What is typed is added to the field with the focus, unless an answer is awaited,
/// the field would be longer than 256 bytes, or a control character is among it.
pub proof fn typing(before: HostUi, text: String, now: u128, after: HostUi, i: int)
    requires
        before.wf(),
        before.stepped(UiEvent::Text(text), now, after),
        0 <= i < 3,
    ensures
        i != before.focused ==> after.values@[i]@ == before.values@[i]@,
        before.pending ==> after == before,
        encode_utf8(before.values@[before.focused as int]@).len() + encode_utf8(text@).len() > 256
            ==> after == before,
        text::any_control(text@) ==> after == before,
        !before.pending && encode_utf8(before.values@[before.focused as int]@).len() + encode_utf8(
            text@,
        ).len() <= 256 && !text::any_control(text@) ==> {
            &&& after.values@[before.focused as int]@ == before.values@[before.focused as int]@
                + text@
            &&& after.confirm is None
        },
        after.focused == before.focused,
        after.action == before.action,
{
}

/// What is pasted replaces the field with the focus, under the same conditions on
/// the text; the last character is taken away again; the focus goes round.
pub proof fn pasting_and_erasing(before: HostUi, text: String, now: u128, after: HostUi, i: int)
    requires
        before.wf(),
        0 <= i < 3,
    ensures
        before.stepped(UiEvent::Paste(text), now, after) ==> {
            &&& after.focused == before.focused
            &&& i != before.focused ==> after.values@[i]@ == before.values@[i]@
            &&& i == before.focused ==> after.values@[i]@ == if encode_utf8(text@).len() <= 256
                && !text::any_control(text@) {
                text@
            } else {
                before.values@[i]@
            }
        },
        before.stepped(UiEvent::Backspace, now, after) ==> {
            &&& after.focused == before.focused
            &&& i != before.focused ==> after.values@[i]@ == before.values@[i]@
            &&& i == before.focused && before.values@[i]@.len() > 0 ==> after.values@[i]@.push(
                before.values@[i]@.last(),
            ) == before.values@[i]@
            &&& i == before.focused && before.values@[i]@.len() == 0 ==> after.values@[i]@.len()
                == 0
        },
        before.stepped(UiEvent::Tab, now, after) ==> {
            &&& after.values == before.values
            &&& before.focused == 0 ==> after.focused == 1
            &&& before.focused == 1 ==> after.focused == 2
            &&& before.focused == 2 ==> after.focused == 0
        },
        before.stepped(UiEvent::Quit, now, after) || before.stepped(UiEvent::Other, now, after)
            ==> after == before,
{
    if before.stepped(UiEvent::Backspace, now, after) && i == before.focused
        && before.values@[i]@.len() > 0 {
        assert(before.values@[i]@.drop_last().push(before.values@[i]@.last())
            =~= before.values@[i]@);
    }
}

/// The list scrolls by rows, or by six at a time, and stops at its ends. A positive
/// turn of the wheel goes up.
pub proof fn scrolling(before: HostUi, y: i32, now: u128, after: HostUi)
    requires
        before.wf(),
        before.status is Some,
        before.offset + 6 <= before.status->0.devices@.len() <= usize::MAX,
    ensures
        before.stepped(UiEvent::Wheel(y), now, after) ==> {
            let devices = before.status->0.devices@.len();
            &&& after.offset + 6 <= devices
            &&& 0 <= before.offset - y && before.offset - y + 6 <= devices ==> after.offset
                == before.offset - y
            &&& y > before.offset ==> after.offset == 0
            &&& before.offset - y + 6 > devices ==> after.offset + 6 == devices
            &&& after.confirm is None
        },
        before.stepped(UiEvent::PageDown, now, after) ==> {
            let devices = before.status->0.devices@.len();
            &&& before.offset + 12 <= devices ==> after.offset == before.offset + 6
            &&& before.offset + 12 > devices ==> after.offset + 6 == devices
        },
        before.stepped(UiEvent::PageUp, now, after) ==> {
            &&& before.offset >= 6 ==> after.offset == before.offset - 6
            &&& before.offset < 6 ==> after.offset == 0
        },
{
}

/// A confirmation is awaited for ten seconds, the state is asked for every five, and
/// not while a confirmation is awaited; a code is shown for five minutes.
pub proof fn how_long_things_last(ui: HostUi, now: u128)
    ensures
        ui.confirm matches Some((_, since)) ==> (ui.lapsed(now) <==> now > since + 10_000_000_000)
            && !ui.due(now),
        ui.confirm is None ==> !ui.lapsed(now),
        ui.confirm is None && ui.refreshed is None ==> ui.due(now),
        ui.confirm is None ==> (ui.refreshed matches Some(last) ==> (ui.due(now) <==> now >= last
            + 5_000_000_000)),
        ui.pairing_code matches Some((_, since)) ==> (ui.shows_code(now) <==> now < since
            + 300_000_000_000),
        ui.pairing_code is None ==> !ui.shows_code(now),
{
}

// -------------------------------------------------------------------- reading

/// Some line has this text.
pub open spec fn reads(lines: Seq<LineView>, text: Seq<char>) -> bool {
    exists|i: int| 0 <= i < lines.len() && (#[trigger] lines[i]).text == text
}

/// The window says how the service is, where the host listens, who may log in and
/// what its fingerprint is; without an answer it says that there is none.
pub proof fn the_window_describes_the_host(ui: HostUi, now: u128)
    ensures
        reads(
            ui.text(now),
            "User service: "@ + ui.service_state@ + "    •    Local controls only"@,
        ),
        reads(ui.text(now), ui.message@),
        ui.status matches Some(status) ==> {
            &&& reads(ui.text(now), status.fingerprint@)
            &&& status.username matches Some(name) ==> reads(
                ui.text(now),
                "Listen: "@ + status.listen@ + "   Login: "@ + name@,
            )
            &&& status.username is None ==> reads(
                ui.text(now),
                "Listen: "@ + status.listen@ + "   Login: "@ + "disabled"@,
            )
        },
        ui.status is None ==> reads(
            ui.text(now),
            "Host control unavailable. Start the updated persistent host service."@,
        ),
{
    let t = ui.text(now);
    assert(t.len() >= 12);
    assert(t[1] == ui.header()[1]);
    assert(t[2] == ui.header()[2]);
    assert(t[4] == ui.header()[4]);
    assert(t[t.len() - 1].text == ui.message@);
    assert(t[1].text == "User service: "@ + ui.service_state@ + "    •    Local controls only"@);
}

/// The code is shown while it is worth it.
pub proof fn the_window_shows_the_code(ui: HostUi, now: u128)
    ensures
        ui.pairing_code matches Some((code, since)) ==> now < since + 300_000_000_000 ==> reads(
            ui.text(now),
            "Code: "@ + code@,
        ),
{
    if let Some((code, since)) = ui.pairing_code {
        if now < since + 300_000_000_000 {
            assert(ui.text(now)[9] == host_ui::line("Code: "@ + code@, 482, 434, 360));
        }
    }
}

/// Each device that is scrolled to stands in its row, the name before the identifier,
/// with a mark before the one that is selected.
pub proof fn the_window_lists_the_devices(ui: HostUi, now: u128, row: int)
    requires
        ui.status is Some,
        0 <= row < 6,
        ui.offset + row < ui.status->0.devices@.len(),
    ensures
        ({
            let device = ui.status->0.devices@[ui.offset + row];
            let mark = if ui.selected matches Some(id) && id@ == device.id@ {
                "›"@
            } else {
                " "@
            };
            let text = mark + " "@ + device.name@ + "   "@ + device.id@;
            ui.text(now).contains(
                LineView { text, x: 28, y: (512 + 28 * row) as i32, width: 864 },
            )
        }),
        reads(
            ui.text(now),
            "MANAGED DEVICES ("@ + text::decimal(ui.status->0.devices@.len())
                + ") / legacy imported credentials are preserved"@,
        ),
{
    let device = ui.status->0.devices@[ui.offset + row];
    let t = ui.text(now);
    let above = if ui.shows_code(now) {
        11int
    } else {
        10int
    };
    assert(ui.header().len() == 9);
    assert(ui.shown_rows() > row);
    assert(t[above + row] == ui.rows(ui.shown_rows())[row]);
    assert(ui.rows(ui.shown_rows())[row] == host_ui::line(
        ui.row_text(ui.offset + row),
        28,
        (512 + row * 28) as i32,
        864,
    ));
    assert(t[above - 1] == host_ui::line(
        host_ui::devices_text(ui.device_count() as nat),
        28,
        482,
        864,
    ));
}

/// A field shows as many characters as it holds; a name is shown as it is.
pub proof fn fields_show_their_length(ui: HostUi, index: int)
    requires
        ui.wf(),
        0 <= index < 3,
    ensures
        ui.field_text(index).len() == ui.values@[index]@.len(),
        ui.field_text(0) == ui.values@[0]@,
        index > 0 ==> forall|i: int|
            0 <= i < ui.field_text(index).len() ==> #[trigger] ui.field_text(index)[i] == '•',
{
}

/// A confirmation that came too late is void, and the user is told; the list never
/// scrolls past its end.
pub proof fn a_late_confirmation_is_void(before: HostUi, now: u128, after: HostUi)
    requires
        before.begun(now, after),
    ensures
        before.confirm matches Some((_, since)) ==> {
            &&& now > since + 10_000_000_000 ==> after.confirm is None && after.message@
                == "Confirmation expired; no change made."@
            &&& now <= since + 10_000_000_000 ==> after.confirm == before.confirm && after.message@
                == before.message@
        },
        before.confirm is None ==> after.confirm is None && after.message@ == before.message@,
        after.offset <= before.offset,
        before.device_count() <= 6 ==> after.offset == 0,
        before.device_count() > 6 ==> after.offset + 6 <= before.device_count(),
        before.offset + 6 <= before.device_count() ==> after.offset == before.offset,
        after.values == before.values && after.action == before.action && after.selected
            == before.selected && after.pending == before.pending,
{
}

/// An answer takes the place of the state; a code is shown from when it came until pairing
/// is closed; an error takes the state away and is shown.
pub proof fn an_answer_is_shown(
    before: HostUi,
    answer: Result<Response, String>,
    service: String,
    now: u128,
    after: HostUi,
)
    requires
        before.answered(answer, service, now, after),
    ensures
        !after.pending,
        after.service_state@ == service@,
        answer matches Ok(response) ==> {
            &&& after.status matches Some(status) && status.devices == response.devices
                && status.username == response.username && status.listen == response.listen
                && status.fingerprint == response.fingerprint && status.code is None
            &&& !response.pairing_open ==> after.pairing_code is None
            &&& response.pairing_open && response.code is Some ==> after.pairing_code == Some(
                (response.code->0, now),
            )
            &&& response.pairing_open && response.code is None ==> after.pairing_code
                == before.pairing_code
        },
        answer matches Err(error) ==> after.status is None && after.message@ == error@
            && after.pairing_code == before.pairing_code,
        after.values == before.values && after.action == before.action && after.confirm
            == before.confirm,
{
}

/// One thing is done at a time: what was asked for, or else the state is asked for every
/// five seconds.
pub proof fn one_thing_at_a_time(before: HostUi, now: u128, after: HostUi, r: Option<Action>)
    requires
        before.acted(now, after, r),
    ensures
        before.pending ==> r is None && after.pending,
        !before.pending && before.action is Some ==> r == before.action && after.pending,
        !before.pending && before.action is None && r is Some ==> r == Some(
            Action::Admin(Request::Status),
        ) && before.confirm is None && (before.refreshed matches Some(last) ==> now >= last
            + 5_000_000_000),
        !before.pending && before.confirm is None && before.refreshed is None ==> r is Some,
        after.action is None,
        r is Some ==> after.refreshed == Some(now),
        r is None ==> after.refreshed == before.refreshed && after.pending == before.pending,
        after.values == before.values,
{
}

/// Rows stand below each other, 28 apart and 26 high.
pub proof fn rows_stand_below_each_other(index: int)
    requires
        0 <= index < 6,
    ensures
        host_ui::row_rect(index).x == 28,
        host_ui::row_rect(index).width == 864,
        host_ui::row_rect(index).height == 26,
        host_ui::row_rect(0).y == 510,
        index > 0 ==> host_ui::row_rect(index).y == host_ui::row_rect(index - 1).y + 28,
{
}

} // verus!
