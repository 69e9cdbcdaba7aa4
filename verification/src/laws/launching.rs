//! The window in which a host is chosen.
use crate::host_ui::LineView;
use crate::launcher::{self, Launcher, Step, UiEvent};
use crate::profiles::Profile;
use crate::text;
use vstd::prelude::*;
use vstd::utf8::encode_utf8;

verus! {

/// A click on a field gives it the focus: the address above, the path below.
pub proof fn a_click_chooses_a_field(before: Launcher, x: i32, y: i32, after: Launcher, step: Step)
    requires
        before.stepped(UiEvent::Click { x, y }, after, step),
    ensures
        90 <= y < 132 ==> !after.path_focused && after.address == before.address
            && after.pairing_path == before.pairing_path && step == Step::Nothing,
        170 <= y < 212 ==> after.path_focused && after.address == before.address
            && after.pairing_path == before.pairing_path && step == Step::Nothing,
        !(90 <= y < 132) && !(170 <= y < 212) ==> after.path_focused == before.path_focused,
{
}

/// To the left below the fields a pairing is imported, and to the right the next
/// saved host is chosen.
pub proof fn importing_and_choosing(before: Launcher, x: i32, y: i32, after: Launcher, step: Step)
    requires
        before.wf(),
        before.stepped(UiEvent::Click { x, y }, after, step),
        230 <= y < 275,
    ensures
        x < 400 ==> step == Step::Import && after == before,
        x >= 400 ==> step == Step::Nothing,
        x >= 400 && before.profiles@.len() == 0 ==> after == before,
        x >= 400 && before.profiles@.len() > 0 ==> {
            let next = if before.index + 1 == before.profiles@.len() {
                0
            } else {
                before.index + 1
            };
            &&& after.index == next
            &&& after.selected == Some(before.profiles@[next])
            &&& after.address@ == before.profiles@[next].address@
            &&& after.pairing_path == before.pairing_path
            &&& after.running == before.running
        },
{
    if x >= 400 && before.profiles@.len() > 0 {
        launcher::next_visits_every_profile(before, after);
    }
}

/// The boxes are ticked by a click, and unticked by another.
pub proof fn ticking(before: Launcher, x: i32, y: i32, after: Launcher, step: Step)
    requires
        before.stepped(UiEvent::Click { x, y }, after, step),
        300 <= y < 340,
    ensures
        step == Step::Nothing,
        x < 400 ==> after.clipboard != before.clipboard && after.mute == before.mute,
        x >= 400 ==> after.mute != before.mute && after.clipboard == before.clipboard,
        after.running == before.running,
        after.selected == before.selected,
        after.address == before.address,
{
}

/// A session is begun with a host that was chosen, where none runs; it can be ended at
/// any time.
pub proof fn connecting(before: Launcher, x: i32, y: i32, after: Launcher, step: Step)
    requires
        before.stepped(UiEvent::Click { x, y }, after, step),
        365 <= y < 412,
    ensures
        x < 400 && before.running ==> step == Step::Nothing && after == before,
        x < 400 && !before.running ==> (step == Step::Connect <==> (before.selected matches Some(
            profile,
        ) && profile.address@ == text::trimmed(before.address@))),
        x < 400 ==> after.running == before.running && after.selected == before.selected,
        x < 400 && !before.running && step != Step::Connect ==> step == Step::Nothing
            && after.status@ == "Import and trust a pairing file for this address first."@,
        x >= 400 ==> step == Step::Disconnect && !after.running && after.status@
            == "Disconnected. Connect to start again."@ && after.selected == before.selected,
{
}

/// Elsewhere a click does nothing.
pub proof fn other_clicks_do_nothing(before: Launcher, x: i32, y: i32, after: Launcher, step: Step)
    requires
        before.stepped(UiEvent::Click { x, y }, after, step),
        y < 90 || 132 <= y < 170 || 212 <= y < 230 || 275 <= y < 300 || 340 <= y < 365 || y >= 412,
    ensures
        step == Step::Nothing,
        after == before,
{
}

/// What is typed is added to the field with the focus, up to 2048 bytes; what is
/// pasted replaces it, without the white space around it.
pub proof fn writing(before: Launcher, text: String, after: Launcher, step: Step)
    ensures
        before.stepped(UiEvent::Text(text), after, step) ==> {
            &&& step == Step::Nothing
            &&& before.path_focused ==> after.address == before.address && after.pairing_path@
                == if encode_utf8(before.pairing_path@).len() + encode_utf8(text@).len() <= 2048 {
                before.pairing_path@ + text@
            } else {
                before.pairing_path@
            }
            &&& !before.path_focused ==> after.pairing_path == before.pairing_path && after.address@
                == if encode_utf8(before.address@).len() + encode_utf8(text@).len() <= 2048 {
                before.address@ + text@
            } else {
                before.address@
            }
        },
        before.stepped(UiEvent::Paste(text), after, step) ==> {
            &&& step == Step::Nothing
            &&& before.path_focused ==> after.address == before.address && after.pairing_path@
                == if encode_utf8(text@).len() <= 2048 {
                text::trimmed(text@)
            } else {
                before.pairing_path@
            }
            &&& !before.path_focused ==> after.pairing_path == before.pairing_path && after.address@
                == if encode_utf8(text@).len() <= 2048 {
                text::trimmed(text@)
            } else {
                before.address@
            }
        },
        before.stepped(UiEvent::Drop(text), after, step) ==> step == Step::Nothing
            && after.pairing_path@ == text@ && after.path_focused && after.address
            == before.address,
        before.stepped(UiEvent::Tab, after, step) ==> step == Step::Nothing && after.path_focused
            != before.path_focused && after.address == before.address && after.pairing_path
            == before.pairing_path,
        before.stepped(UiEvent::Backspace, after, step) ==> {
            &&& step == Step::Nothing
            &&& before.path_focused ==> after.address == before.address
            &&& !before.path_focused ==> after.pairing_path == before.pairing_path
            &&& before.path_focused && before.pairing_path@.len() > 0 ==> after.pairing_path@.push(
                before.pairing_path@.last(),
            ) == before.pairing_path@
            &&& !before.path_focused && before.address@.len() > 0 ==> after.address@.push(
                before.address@.last(),
            ) == before.address@
        },
        before.stepped(UiEvent::Quit, after, step) ==> step == Step::Quit && after == before,
        before.stepped(UiEvent::Other, after, step) ==> step == Step::Nothing && after == before,
{
    if before.pairing_path@.len() > 0 {
        assert(before.pairing_path@.drop_last().push(before.pairing_path@.last())
            =~= before.pairing_path@);
    }
    if before.address@.len() > 0 {
        assert(before.address@.drop_last().push(before.address@.last()) =~= before.address@);
    }
}

/// A session is told its host first and its pairing file behind the option for one;
/// it reconnects, and shares or mutes what was ticked.
pub proof fn a_session_is_told_what_was_chosen(profile: Profile, clipboard: bool, mute: bool)
    ensures
        ({
            let told = launcher::session_arguments(profile, clipboard, mute);
            &&& told[0] == "client"@
            &&& told[1] == profile.address@
            &&& told[2] == "--pairing-file"@
            &&& told[3] == profile.pairing_file@
            &&& told[4] == "--reconnect"@
            &&& clipboard && !mute ==> told.len() == 6 && told[5] == "--clipboard"@
            &&& mute && !clipboard ==> told.len() == 6 && told[5] == "--mute"@
            &&& clipboard && mute ==> told.len() == 7 && told[5] == "--clipboard"@ && told[6]
                == "--mute"@
            &&& !clipboard && !mute ==> told.len() == 5
        }),
{
}

/// What the user is told of a session depends on what it printed, and is one of three
/// texts.
pub proof fn the_user_is_told_of_a_session(before: Seq<char>, after: Seq<char>)
    ensures
        launcher::progress_text(before + "desktop connected"@ + after) == Some(
            "Connected — native desktop session is ready."@,
        ),
        launcher::progress_text(before + "connecting with pinned TLS"@ + after) is Some,
        launcher::progress_text(before + "connection failed"@ + after) is Some,
        launcher::progress_text(before + "reconnect"@ + after) is Some,
        ({
            let printed = before + "connecting with pinned TLS"@ + after;
            !text::has_part(printed, "desktop connected"@) ==> launcher::progress_text(printed)
                == Some("Connecting with the host's trusted certificate…"@)
        }),
        ({
            let printed = before + "connection failed"@ + after;
            !text::has_part(printed, "desktop connected"@) && !text::has_part(
                printed,
                "connecting with pinned TLS"@,
            ) ==> launcher::progress_text(printed) == Some(
                "Connection interrupted; retrying. Check host/network or disconnect."@,
            )
        }),
        ({
            let printed = before + "reconnect"@ + after;
            !text::has_part(printed, "desktop connected"@) && !text::has_part(
                printed,
                "connecting with pinned TLS"@,
            ) ==> launcher::progress_text(printed) == Some(
                "Connection interrupted; retrying. Check host/network or disconnect."@,
            )
        }),
        launcher::progress_text(before) is Some ==> text::has_part(before, "desktop connected"@)
            || text::has_part(before, "connecting with pinned TLS"@) || text::has_part(
            before,
            "reconnect"@,
        ) || text::has_part(before, "connection failed"@),
{
    crate::laws::numerals::pieces_are_found_again(before, "desktop connected"@, after);
    crate::laws::numerals::pieces_are_found_again(before, "connecting with pinned TLS"@, after);
    crate::laws::numerals::pieces_are_found_again(before, "connection failed"@, after);
    crate::laws::numerals::pieces_are_found_again(before, "reconnect"@, after);
}

/// A line starts where a click on it does this.
pub open spec fn stands(lines: Seq<LineView>, text: Seq<char>, x: int, y: int) -> bool {
    exists|i: int|
        0 <= i < lines.len() && (#[trigger] lines[i]).text == text && lines[i].x == x && lines[i].y
            == y
}

/// Fields show what they hold, boxes whether they are ticked, and each label stands
/// where a click does what it says.
pub proof fn the_window_shows_what_is_chosen(ui: Launcher)
    ensures
        stands(ui.text(), ui.address@, 30, 100),
        stands(ui.text(), ui.pairing_path@, 30, 180),
        stands(ui.text(), "Import & trust pairing"@, 35, 242),
        stands(ui.text(), "Next saved host"@, 425, 242),
        ui.clipboard ==> stands(ui.text(), "[x] Share text clipboard"@, 20, 308),
        !ui.clipboard ==> stands(ui.text(), "[ ] Share text clipboard"@, 20, 308),
        ui.mute ==> stands(ui.text(), "[x] Mute audio"@, 410, 308),
        !ui.mute ==> stands(ui.text(), "[ ] Mute audio"@, 410, 308),
        ui.running ==> stands(ui.text(), "Session running"@, 35, 378),
        !ui.running ==> stands(ui.text(), "Connect / reconnect"@, 35, 378),
        stands(ui.text(), "Disconnect"@, 425, 378),
        stands(ui.text(), ui.status@, 20, 435),
        ui.text().len() == 14,
{
    let t = ui.text();
    assert(t[2].text == ui.address@);
    assert(t[4].text == ui.pairing_path@);
    assert(t[5].text == "Import & trust pairing"@);
    assert(t[6].text == "Next saved host"@);
    assert(t[7].x == 20);
    assert(t[8].x == 410);
    assert(t[9].x == 35);
    assert(t[10].text == "Disconnect"@);
    assert(t[13].text == ui.status@);
}

/// What was imported is chosen, and is the last; what failed is told and changes nothing
/// else.
pub proof fn an_import_is_chosen(
    before: Launcher,
    result: Result<Vec<Profile>, String>,
    after: Launcher,
)
    requires
        before.brought(result, after),
    ensures
        result matches Ok(profiles) ==> {
            &&& after.profiles == profiles
            &&& profiles@.len() > 0 ==> after.selected == Some(profiles@[profiles@.len() - 1])
                && after.index + 1 == profiles@.len()
            &&& after.status@ == "Pairing imported and trusted. Ready to connect."@
        },
        result matches Err(message) ==> {
            &&& after.status@ == "Import failed: "@ + message@
            &&& after.profiles == before.profiles && after.selected == before.selected
                && after.index == before.index
        },
        after.address == before.address && after.running == before.running,
{
}

/// A session runs from when its process was started until it ended.
pub proof fn a_session_runs(
    before: Launcher,
    started: Result<(), String>,
    success: bool,
    exit: Seq<char>,
    after: Launcher,
)
    ensures
        before.began(started, after) ==> {
            &&& started is Ok ==> after.running && after.status@
                == "Connecting… session opens in a separate native window."@
            &&& started matches Err(message) ==> after.running == before.running && after.status@
                == "Could not launch client: "@ + message@
        },
        before.left(success, exit, after) ==> {
            &&& !after.running
            &&& success ==> after.status@ == "Session ended. Connect to start again."@
            &&& !success ==> after.status@ == "Connection exited ("@ + exit
                + "). Check host, pairing and UDP 4443; see terminal for details."@
        },
        before.began(started, after) || before.left(success, exit, after) ==> after.selected
            == before.selected && after.address == before.address && after.clipboard
            == before.clipboard && after.mute == before.mute,
{
}

/// Fonts are looked for where a Mac has them, and then where Linux has them.
pub proof fn where_fonts_are_looked_for()
    ensures
        launcher::font_places() == seq![
            "/System/Library/Fonts/Supplemental/Arial.ttf"@,
            "/usr/share/fonts/truetype/dejavu/DejaVuSans.ttf"@,
            "/usr/share/fonts/TTF/DejaVuSans.ttf"@,
        ],
{
}

} // verus!
