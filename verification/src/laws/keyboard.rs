//! The keyboard: a key on the client's desk is the same key on the host's.
use crate::keyboard_capture::{Action, Capture, Follow, KeyEvent, Shortcuts};
use crate::protocol::key_code;
use vstd::prelude::*;

verus! {

/// The USB HID usage of the key that bears this character on a US keyboard. Letters
/// are counted from A, digits from 1 with 0 at the end.
pub open spec fn usage_of(c: char) -> int {
    if 'a' <= c <= 'z' {
        4 + (c as int - 'a' as int)
    } else if '1' <= c <= '9' {
        30 + (c as int - '1' as int)
    } else if c == '0' {
        39
    } else if c == '-' {
        45
    } else if c == '=' {
        46
    } else if c == '[' {
        47
    } else if c == ']' {
        48
    } else if c == '\\' {
        49
    } else if c == ';' {
        51
    } else if c == '\'' {
        52
    } else if c == '`' {
        53
    } else if c == ',' {
        54
    } else if c == '.' {
        55
    } else {
        56
    }
}

/// Linux counts the keys of each row from left to right: the digits from 2, then Q
/// to the brackets from 16, A to the backquote from 30, the backslash, and Z to the
/// slash from 44.
pub proof fn rows_are_counted_from_left_to_right(i: int)
    ensures
        0 <= i < 12 ==> key_code(usage_of("1234567890-="@[i])) == Some((2 + i) as u16),
        0 <= i < 12 ==> key_code(usage_of("qwertyuiop[]"@[i])) == Some((16 + i) as u16),
        0 <= i < 12 ==> key_code(usage_of("asdfghjkl;'`"@[i])) == Some((30 + i) as u16),
        0 <= i < 11 ==> key_code(usage_of("\\zxcvbnm,./"@[i])) == Some((43 + i) as u16),
{
    reveal_strlit("1234567890-=");
    reveal_strlit("qwertyuiop[]");
    reveal_strlit("asdfghjkl;'`");
    reveal_strlit("\\zxcvbnm,./");
}

/// The keys that bear no character: those around the rows, the function keys, the
/// block of the arrows, and the modifiers of either side.
pub proof fn other_keys_keep_their_names(f: int)
    ensures
        // Return, escape, backspace, tab, space and caps lock.
        key_code(40) == Some(28u16),
        key_code(41) == Some(1u16),
        key_code(42) == Some(14u16),
        key_code(43) == Some(15u16),
        key_code(44) == Some(57u16),
        key_code(57) == Some(58u16),
        // F1 to F10, and the two that were added later.
        1 <= f <= 10 ==> key_code(57 + f) == Some((58 + f) as u16),
        11 <= f <= 12 ==> key_code(57 + f) == Some((76 + f) as u16),
        // Print screen, scroll lock and pause.
        key_code(70) == Some(99u16),
        key_code(71) == Some(70u16),
        key_code(72) == Some(119u16),
        // Insert and delete, home and end, page up and page down.
        key_code(73) == Some(110u16),
        key_code(76) == Some(111u16),
        key_code(74) == Some(102u16),
        key_code(77) == Some(107u16),
        key_code(75) == Some(104u16),
        key_code(78) == Some(109u16),
        // Right, left, down and up.
        key_code(79) == Some(106u16),
        key_code(80) == Some(105u16),
        key_code(81) == Some(108u16),
        key_code(82) == Some(103u16),
        // Control, shift, alt and meta, on the left and on the right.
        key_code(224) == Some(29u16),
        key_code(225) == Some(42u16),
        key_code(226) == Some(56u16),
        key_code(227) == Some(125u16),
        key_code(228) == Some(97u16),
        key_code(229) == Some(54u16),
        key_code(230) == Some(100u16),
        key_code(231) == Some(126u16),
{
}

/// Everything else is no key that the host knows.
pub proof fn no_other_keys(usage: int)
    ensures
        key_code(usage) is Some <==> 4 <= usage <= 82 && usage != 50 || 224 <= usage <= 231,
{
}

/// A control key of either side is among the modifiers, and so is an alt key.
pub open spec fn control_and_alt(modifiers: u16) -> bool {
    (modifiers & 0x0040 != 0 || modifiers & 0x0080 != 0) && (modifiers & 0x0100 != 0 || modifiers
        & 0x0200 != 0)
}

proof fn chord_is_control_and_alt(modifiers: u16)
    ensures
        crate::keyboard_capture::chord(modifiers) == control_and_alt(modifiers),
{
    assert((modifiers & 0x00C0 != 0) == (modifiers & 0x0040 != 0 || modifiers & 0x0080 != 0))
        by (bit_vector);
    assert((modifiers & 0x0300 != 0) == (modifiers & 0x0100 != 0 || modifiers & 0x0200 != 0))
        by (bit_vector);
}

/// Control, alt and Q going down end the session, in every state, and nothing else
/// does.
pub proof fn only_the_chord_with_q_disconnects(state: Shortcuts, event: KeyEvent, captured: bool)
    ensures
        event.disconnects() <==> event.keycode == Some('q' as i32) && event.down
            && control_and_alt(event.modifiers),
        state.meaning(event, captured) == Some(Action::Disconnect) <==> event.keycode == Some(
            'q' as i32,
        ) && event.down && control_and_alt(event.modifiers),
{
    chord_is_control_and_alt(event.modifiers);
}

/// Control, alt and K give the keyboard to the host or take it back: once for each
/// press, whether or not it is captured. Only K does.
pub proof fn the_chord_with_k_toggles_once(state: Shortcuts, event: KeyEvent, captured: bool)
    ensures
        state.meaning(event, captured) == Some(Action::Toggle) <==> event.keycode == Some(
            'k' as i32,
        ) && event.down && !event.repeat && !state.toggle_down && control_and_alt(event.modifiers),
        event.keycode == Some('k' as i32) && event.down && control_and_alt(event.modifiers)
            ==> state.after(event, captured).toggle_down,
        event.keycode == Some('k' as i32) && !event.down ==> !state.after(
            event,
            captured,
        ).toggle_down,
        event.keycode != Some('k' as i32) ==> state.after(event, captured).toggle_down
            == state.toggle_down,
{
    chord_is_control_and_alt(event.modifiers);
}

/// F8 shows the statistics once for each press, unless the keyboard is captured.
pub proof fn f8_shows_statistics_once(state: Shortcuts, event: KeyEvent, captured: bool)
    ensures
        state.meaning(event, captured) == Some(Action::Stats) <==> event.keycode == Some(
            0x4000_0041i32,
        ) && event.down && !event.repeat && !state.stats_down && !captured,
        event.keycode == Some(0x4000_0041i32) && event.down && !captured ==> state.after(
            event,
            captured,
        ).stats_down,
        event.keycode == Some(0x4000_0041i32) && !event.down ==> !state.after(
            event,
            captured,
        ).stats_down,
        event.keycode != Some(0x4000_0041i32) ==> state.after(event, captured).stats_down
            == state.stats_down,
{
    chord_is_control_and_alt(event.modifiers);
}

/// What is neither of the three keys goes to the host, whatever else is held.
pub proof fn ordinary_keys_go_to_the_host(state: Shortcuts, event: KeyEvent, captured: bool)
    requires
        event.keycode != Some('q' as i32),
        event.keycode != Some('k' as i32),
        event.keycode != Some(0x4000_0041i32),
    ensures
        state.meaning(event, captured) is None,
        state.after(event, captured) == state,
{
}

/// The keyboard stays with the window that has it, goes with the focus to another of the
/// windows, and is given back when none has the focus.
pub proof fn the_keyboard_follows_the_focus(
    capture: Capture,
    focused: Option<u32>,
    r: Follow,
)
    requires
        capture.followed(focused, r),
    ensures
        capture.window is None ==> r == Follow::Stay,
        capture.window is Some && focused is None ==> r == Follow::Release,
        capture.window is Some && focused == capture.window ==> r == Follow::Stay,
        capture.window is Some && focused is Some && focused != capture.window ==> r
            == Follow::Bind(focused->0),
{
}

/// A window has the keyboard where it was granted.
pub proof fn the_keyboard_is_granted(
    window: u32,
    granted: bool,
    after: Capture,
    r: bool,
)
    requires
        Capture::bound(window, granted, after, r),
    ensures
        granted ==> r && after.window == Some(window),
        !granted ==> !r && after.window is None,
{
}

} // verus!
