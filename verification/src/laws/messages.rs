//! What host and client accept of each other.
use crate::audio;
use crate::client::{button_number, desktop_valid, MouseButton};
use crate::client::session;
use crate::control_order;
use crate::error::Error;
use crate::host;
use crate::profiles::{self, Location, PathFacts, Profile};
use crate::protocol::{
    fingerprint_at, fingerprint_bytes, fingerprint_form, group_refused, held_after, hex_value,
    same_certificate, unit_interval, video_size_valid, Desktop, Event, PairingView, VideoCodec,
};
use crate::text;
use vstd::prelude::*;
use vstd::utf8::encode_utf8;

verus! {

// --------------------------------------------------------------------- events

/// A coordinate is a number from zero to one: as many steps of the last digit above
/// zero as the bits count, up to one, or the negative zero.
pub proof fn coordinates_lie_between_zero_and_one(bits: u64)
    ensures
        unit_interval(bits) <==> bits <= 0x3FF0_0000_0000_0000 || bits == 0x8000_0000_0000_0000,
{
    let b = bits as int;
    assert(b / 0x8000_0000_0000_0000 == 0 <==> b < 0x8000_0000_0000_0000);
    if b < 0x8000_0000_0000_0000 {
        assert(b / 0x10_0000_0000_0000 < 0x800);
    } else {
        assert(b / 0x10_0000_0000_0000 >= 0x800);
        assert((b / 0x10_0000_0000_0000) % 0x800 == b / 0x10_0000_0000_0000 - 0x800);
    }
}

/// Pointers stay on the screen.
pub proof fn motions_stay_on_the_screen(x: u64, y: u64)
    ensures
        (Event::Motion { x, y }).valid() <==> (x <= 0x3FF0_0000_0000_0000 || x
            == 0x8000_0000_0000_0000) && (y <= 0x3FF0_0000_0000_0000 || y == 0x8000_0000_0000_0000),
        (Event::Motion { x, y }).complaint() == Error::PointerCoordinates,
{
    coordinates_lie_between_zero_and_one(x);
    coordinates_lie_between_zero_and_one(y);
}

/// The host accepts the buttons that a mouse has, and no other: left, middle and right
/// are the first three.
pub proof fn three_buttons(button: MouseButton, number: u8, down: bool)
    ensures
        button_number(MouseButton::Left) == Some(1u8),
        button_number(MouseButton::Middle) == Some(2u8),
        button_number(MouseButton::Right) == Some(3u8),
        button_number(MouseButton::Other) is None,
        button_number(button) matches Some(n) ==> (Event::Button { button: n, down }).valid(),
        (Event::Button { button: number, down }).valid() <==> number == 1 || number == 2 || number
            == 3,
        (Event::Button { button: number, down }).complaint() == Error::UnsupportedButton,
{
}

/// Keys, turns of the wheel, monitors, feedback and video settings have their ranges.
pub proof fn events_have_their_ranges(code: u16, down: bool, x: i32, y: i32, index: usize)
    ensures
        (Event::Key { code, down }).valid() <==> 0 < code < 128,
        (Event::Scroll { x, y }).valid() <==> -21 < x < 21 && -21 < y < 21,
        (Event::SelectMonitor { index }).valid() <==> index <= 63,
        Event::ReleaseAll.valid(),
        Event::Ping.valid(),
        Event::ClipboardRequest.valid(),
        (Event::Key { code, down }).complaint() == Error::UnsupportedKey,
        (Event::Scroll { x, y }).complaint() == Error::ScrollRange,
        (Event::SelectMonitor { index }).complaint() == Error::MonitorIndex,
{
}

pub proof fn settings_have_their_ranges(
    width: u32,
    fps: u32,
    bitrate: u32,
    queue_ms: u32,
    dropped_groups: u32,
    id: u64,
)
    ensures
        (Event::ConfigureVideo { width, fps, bitrate }).valid() <==> (width == 0 || width >= 320
            && width <= 7680) && fps > 0 && fps <= 120 && bitrate >= 500 && bitrate <= 100_000,
        (Event::Feedback { queue_ms, dropped_groups }).valid() <==> queue_ms <= 60_000
            && dropped_groups <= 100_000,
        (Event::Probe { id }).valid(),
        (Event::ConfigureVideo { width, fps, bitrate }).complaint() == Error::VideoSettings,
        (Event::Feedback { queue_ms, dropped_groups }).complaint() == Error::VideoFeedback,
{
}

/// A text for the clipboard has 64 kibibytes at most and no NUL.
pub proof fn clipboard_texts_are_bounded(text: String, i: int)
    ensures
        (Event::Clipboard { text }).valid() ==> encode_utf8(text@).len() <= 65_536 && (0 <= i
            < text@.len() ==> text@[i] != '\0'),
        encode_utf8(text@).len() <= 65_536 && (forall|k: int|
            0 <= k < text@.len() ==> #[trigger] text@[k] != '\0') ==> (Event::Clipboard {
            text,
        }).valid(),
        (Event::Clipboard { text }).complaint() == Error::ClipboardText,
{
}

/// The wheel never turns so far that the host refuses it.
pub proof fn turns_are_accepted(x: i32, y: i32, flipped: bool)
    ensures
        (Event::Scroll {
            x: session::scroll_step(x, flipped),
            y: session::scroll_step(y, flipped),
        }).valid(),
{
}

// ----------------------------------------------------------------------- video

/// A picture may lie or stand, but has two pixels a side and no more than 2^25 in all.
pub proof fn sizes_of_video(width: u32, height: u32)
    ensures
        video_size_valid(width, height) ==> width >= 2 && height >= 2 && width <= 7680 && height
            <= 8192 && width * height <= 0x200_0000,
        2 <= width <= 4096 && 2 <= height <= 8192 ==> video_size_valid(width, height),
        2 <= width <= 7680 && 2 <= height <= 4369 ==> video_size_valid(width, height),
        width > 7680 || height > 8192 || width < 2 || height < 2 ==> !video_size_valid(
            width,
            height,
        ),
        video_size_valid(7680, 4320),
        width * height > 0x200_0000 ==> !video_size_valid(width, height),
{
    if 2 <= width <= 4096 && 2 <= height <= 8192 {
        assert(width * height <= 4096 * 8192) by (nonlinear_arith)
            requires
                0 <= width <= 4096,
                0 <= height <= 8192,
        ;
    }
    if 2 <= width <= 7680 && 2 <= height <= 4369 {
        assert(width * height <= 7680 * 4369) by (nonlinear_arith)
            requires
                0 <= width <= 7680,
                0 <= height <= 4369,
        ;
    }
}

/// A client shows desktops of its own version, up to 3840 by 4320.
pub proof fn desktops_that_are_shown(desktop: Desktop)
    ensures
        desktop_valid(desktop) <==> desktop.version == 2 && desktop.width >= 2 && desktop.width
            <= 3840 && desktop.height >= 2 && desktop.height <= 4320,
{
}

/// A track bears the name of its codec.
pub proof fn tracks_bear_names()
    ensures
        VideoCodec::H264.track_name() == "h264"@,
        VideoCodec::H265.track_name() == "h265"@,
{
}

/// A host is asked for pictures of 320 to 3840 pixels' width, 120 a second at most.
pub proof fn what_a_host_can_be_asked_for(options: host::Options)
    ensures
        options.valid() <==> options.width >= 320 && options.width <= 3840 && options.fps >= 1
            && options.fps <= 120 && options.bitrate >= 500 && options.bitrate <= 100_000,
{
}

/// The height of a scaled picture goes with its width: as far as both are even, and the
/// height at least two, the shape is that of the desktop.
pub proof fn pictures_keep_their_shape(width: u32, native_width: u32, native_height: u32)
    requires
        native_width > 0,
    ensures
        ({
            let height = host::scaled_height(width, native_width, native_height);
            let even_width = (width as int) - (width as int) % 2;
            &&& height >= 2
            &&& height % 2 == 0
            &&& height > 2 ==> height * native_width <= even_width * native_height
            &&& even_width * native_height < (height + 2) * native_width
            &&& width == native_width && width % 2 == 0 && native_height % 2 == 0 && native_height
                >= 2 ==> height == native_height
        }),
{
    let height = host::scaled_height(width, native_width, native_height);
    let w = host::even(width as int);
    assert(w == (width as int) - (width as int) % 2);
    let product = w * native_height;
    assert(product >= 0) by (nonlinear_arith)
        requires
            product == w * native_height,
            w >= 0,
    ;
    let exact = product / native_width as int;
    assert(exact * native_width <= product < (exact + 1) * native_width) by (nonlinear_arith)
        requires
            exact == product / native_width as int,
            native_width > 0,
    ;
    if exact >= 2 {
        host::aspect_ratio_is_kept(width, native_width, native_height);
    } else {
        assert(height == 2);
        assert((exact + 1) * native_width <= 4 * native_width) by (nonlinear_arith)
            requires
                exact < 2,
                native_width > 0,
        ;
    }
    if width == native_width && width % 2 == 0 {
        assert(w == native_width);
        assert(product / native_width as int == native_height) by (nonlinear_arith)
            requires
                product == native_width * native_height,
                native_width > 0,
        ;
    }
}

// ---------------------------------------------------------------------- groups

/// The group that is awaited is taken, and so are the sixteen after it, once each.
pub proof fn groups_may_come_early<T>(held: Map<u64, T>, expected: u64, sequence: u64, group: T)
    ensures
        group_refused(held, expected, expected) is None,
        sequence < expected ==> group_refused(held, expected, sequence) == Some(
            Error::ReorderWindow,
        ),
        sequence > expected + 16 ==> group_refused(held, expected, sequence) == Some(
            Error::ReorderWindow,
        ),
        expected < sequence <= expected + 16 ==> group_refused(held, expected, sequence)
            == if held.contains_key(sequence) {
            Some(Error::DuplicateGroup)
        } else {
            None
        },
        expected < sequence <= expected + 16 ==> held_after(held, expected, sequence, group)
            == held.insert(sequence, group),
        sequence <= expected || sequence > expected + 16 ==> held_after(
            held,
            expected,
            sequence,
            group,
        ) == held,
{
}

/// A connection whose groups come in their order hands each on when it comes.
pub proof fn groups_in_order_are_handed_on<T>(arrivals: Seq<(u64, T)>)
    requires
        arrivals.len() < u64::MAX,
        forall|i: int| 0 <= i < arrivals.len() ==> (#[trigger] arrivals[i]).0 == i,
    ensures
        control_order::after(arrivals).out == arrivals,
        control_order::after(arrivals).expected == arrivals.len(),
        !control_order::after(arrivals).refused,
        control_order::after(arrivals).held == Map::<u64, T>::empty(),
    decreases arrivals.len(),
{
    if arrivals.len() > 0 {
        let rest = arrivals.drop_last();
        assert forall|i: int| 0 <= i < rest.len() implies (#[trigger] rest[i]).0 == i by {
            assert(rest[i] == arrivals[i]);
        }
        groups_in_order_are_handed_on(rest);
        let before = control_order::after(rest);
        let (sequence, group) = arrivals.last();
        let next = control_order::handed_on(before, group);
        assert(next.held =~= Map::<u64, T>::empty());
        assert(next.held.dom() =~= Set::<u64>::empty());
        assert(control_order::flushed(next) == next);
        assert(next.out =~= arrivals);
    } else {
        assert(arrivals =~= Seq::empty());
    }
}

/// Two groups that changed places come out in their order all the same.
pub proof fn exchanged_groups_come_in_order<T>(first: T, second: T)
    ensures
        control_order::after(seq![(1u64, second), (0u64, first)]).out == seq![
            (0u64, first),
            (1u64, second),
        ],
        !control_order::after(seq![(1u64, second), (0u64, first)]).refused,
{
    let arrivals = seq![(1u64, second), (0u64, first)];
    let one = arrivals.drop_last();
    assert(one =~= seq![(1u64, second)]);
    assert(one.drop_last() =~= Seq::empty());
    assert(arrivals.last() == (0u64, first));
    reveal_with_fuel(control_order::after, 3);
    let begun = control_order::after(one);
    assert(begun.held =~= Map::<u64, T>::empty().insert(1, second));
    let next = control_order::handed_on(begun, first);
    assert(next.held =~= Map::<u64, T>::empty().insert(1, second));
    assert(next.held.dom() =~= Set::<u64>::empty().insert(1u64));
    let last = control_order::handed_on(next, second);
    assert(last.held.dom() =~= Set::<u64>::empty());
    reveal_with_fuel(control_order::flushed, 3);
    assert(control_order::flushed(next) == last);
    assert(last.out =~= seq![(0u64, first), (1u64, second)]);
}

// ---------------------------------------------------------------- fingerprints

/// A fingerprint is 64 hexadecimal digits of either case, with white space around them
/// at most; each two of them are a byte.
pub proof fn fingerprints_are_digits(s: Seq<char>, start: int, i: int)
    requires
        fingerprint_at(s, start),
    ensures
        fingerprint_form(s),
        start <= i < start + 64 ==> '0' <= s[i] <= '9' || 'a' <= s[i] <= 'f' || 'A' <= s[i] <= 'F',
        0 <= i < start || start + 64 <= i < s.len() ==> text::white_space(s[i]),
        fingerprint_bytes(s, start).len() == 32,
        0 <= i < 32 ==> fingerprint_bytes(s, start)[i] == 16 * hex_value(s[start + 2 * i])
            + hex_value(s[start + 2 * i + 1]),
{
    if start <= i < start + 64 {
        assert(text::hex_digit(s[i]));
    }
    if 0 <= i < 32 {
        assert(text::hex_digit(s[start + 2 * i]));
        assert(text::hex_digit(s[start + 2 * i + 1]));
        assert(0 <= hex_value(s[start + 2 * i]) < 16);
        assert(0 <= hex_value(s[start + 2 * i + 1]) < 16);
    }
}

/// Digits count from zero to fifteen, in either case.
pub proof fn digits_have_their_values(n: int, c: char)
    ensures
        '0' <= c <= '9' ==> hex_value(c) == c as int - 48,
        'a' <= c <= 'f' ==> hex_value(c) == c as int - 87,
        'A' <= c <= 'F' ==> hex_value(c) == c as int - 55,
{
}

/// A fingerprint names the certificate that it names in other letters or with other white
/// space, and no other.
pub proof fn fingerprints_name_certificates(a: Seq<char>, b: Seq<char>, i: int, j: int)
    requires
        fingerprint_at(a, i),
        fingerprint_at(b, j),
        fingerprint_bytes(a, i) == fingerprint_bytes(b, j),
    ensures
        same_certificate(a, b),
        same_certificate(b, a),
        same_certificate(a, a),
{
}

/// A pairing is valid with a token of 64 digits and a fingerprint.
pub proof fn what_makes_a_pairing(pairing: PairingView)
    ensures
        pairing.valid() <==> text::token_form(pairing.token) && fingerprint_form(
            pairing.fingerprint,
        ),
        text::token_form(pairing.token) ==> pairing.token.len() == 64,
{
}

// -------------------------------------------------------------------- the list

/// The place of a host's profile is the last, the others keep theirs, and a host has
/// one.
pub proof fn a_profile_is_replaced(before: Seq<Profile>, profile: Profile, i: int)
    ensures
        ({
            let after = before.filter(profiles::other_than(profile.address@)).push(profile);
            &&& after.last() == profile
            &&& 0 <= i < after.len() - 1 ==> after[i].address@ != profile.address@
                && before.contains(after[i])
            &&& 0 <= i < before.len() && before[i].address@ != profile.address@ ==> after.contains(
                before[i],
            )
        }),
{
    let kept = before.filter(profiles::other_than(profile.address@));
    if kept.len() > 0 {
        let k = if 0 <= i < kept.len() {
            i
        } else {
            0
        };
        profiles::one_profile_for_a_host(before, profile, k);
        if 0 <= i < before.len() && before[i].address@ != profile.address@ {
            assert(kept.contains(before[i]));
            let at = kept.index_of(before[i]);
            assert(kept.push(profile)[at] == before[i]);
        }
    } else if 0 <= i < before.len() && before[i].address@ != profile.address@ {
        crate::lists::filter_facts(before, profiles::other_than(profile.address@));
        assert(profiles::other_than(profile.address@)(before[i]));
        assert(kept.contains(before[i]));
    }
}

/// A credential is a regular file of 64 kibibytes at most that is its owner's alone.
pub proof fn what_makes_a_credential_file(facts: PathFacts)
    ensures
        facts.credential() <==> facts.file && !facts.symlink && facts.length <= 65_536
            && facts.mode & 0o077 == 0,
        !facts.file || facts.symlink ==> facts.refusal() == Error::CredentialRegular,
        facts.file && !facts.symlink && facts.length > 65_536 ==> facts.refusal()
            == Error::CredentialLarge,
        facts.file && !facts.symlink && facts.length <= 65_536 && facts.mode & 0o077 != 0
            ==> facts.refusal() == Error::CredentialPublic,
{
}

/// What is wrong with a pairing is said of the address first, then of the token.
pub proof fn why_a_pairing_is_not_saved(address: Seq<char>, pairing: PairingView)
    ensures
        profiles::address_valid(address) && !text::token_form(pairing.token)
            ==> profiles::pairing_refusal(address, pairing) == Error::PairingToken,
        profiles::address_valid(address) && text::token_form(pairing.token)
            ==> profiles::pairing_refusal(address, pairing) == Error::Fingerprint,
        !profiles::address_valid(address) ==> profiles::pairing_refusal(address, pairing)
            == profiles::address_refusal(address) && (profiles::address_refusal(address)
            == Error::ProfileAddress || profiles::address_refusal(address) == Error::AddressSyntax
            || profiles::address_refusal(address) == Error::ProfilePort),
        !crate::pairing::plain_address(address) ==> profiles::address_refusal(address)
            == Error::ProfileAddress,
        crate::pairing::plain_address(address) && crate::pairing::url_parts_of(
            crate::pairing::address_url(address),
        ) is None ==> profiles::address_refusal(address) == Error::AddressSyntax,
        crate::pairing::plain_address(address) && crate::pairing::url_parts_of(
            crate::pairing::address_url(address),
        ) is Some ==> profiles::address_refusal(address) == Error::ProfilePort,
{
}

// ----------------------------------------------------------------------- audio

/// Only outputs are recorded: the name ends in ".monitor", is no longer than 512
/// characters, and holds letters, digits and four marks.
pub proof fn only_outputs_are_recorded(source: Seq<char>, i: int)
    ensures
        audio::monitor_name(source) ==> {
            &&& source.len() <= 512
            &&& source.len() >= 8
            &&& source.skip(source.len() - 8) == ".monitor"@
            &&& 0 <= i < source.len() ==> 'a' <= source[i] <= 'z' || 'A' <= source[i] <= 'Z' || '0'
                <= source[i] <= '9' || source[i] == '.' || source[i] == '_' || source[i] == '-'
                || source[i] == ':'
        },
        source.len() <= 512 && text::has_suffix(source, ".monitor"@) && (forall|k: int|
            0 <= k < source.len() ==> 'a' <= #[trigger] source[k] <= 'z' || 'A' <= source[k] <= 'Z'
                || '0' <= source[k] <= '9' || source[k] == '.' || source[k] == '_' || source[k]
                == '-' || source[k] == ':') ==> audio::monitor_name(source),
{
    reveal_strlit(".monitor");
    if audio::monitor_name(source) && 0 <= i < source.len() {
        assert(audio::source_char(source[i]));
    }
    if audio::monitor_name(source) {
        assert(source.skip(source.len() - 8) =~= ".monitor"@);
    }
}

/// A pairing that was saved is the host's from then on, in the file that was named; the
/// profiles of other hosts stay.
pub proof fn a_pairing_is_saved(
    address: Seq<char>,
    pairing: PairingView,
    pairing_file: String,
    before: Seq<Profile>,
    after: Seq<Profile>,
    r: Result<Profile, Error>,
    i: int,
)
    requires
        profiles::saved(address, pairing, pairing_file, before, after, r),
    ensures
        r is Ok <==> profiles::address_valid(address) && text::token_form(pairing.token)
            && fingerprint_form(pairing.fingerprint),
        r is Err ==> after == before,
        r matches Ok(profile) ==> {
            &&& profile.address@ == address
            &&& profile.pairing_file@ == pairing_file@
            &&& after.len() > 0 && after.last() == profile
            &&& 0 <= i < after.len() - 1 ==> after[i].address@ != address
            &&& 0 <= i < before.len() && before[i].address@ != address ==> after.contains(before[i])
        },
{
    if let Ok(profile) = r {
        a_profile_is_replaced(before, profile, i);
    }
}

/// Profiles are kept where the system keeps such files.
pub proof fn where_profiles_are(home: bool, config: bool, macos: bool, r: Result<Location, Error>)
    requires
        profiles::located(home, config, macos, r),
    ensures
        !home ==> r is Err && r->Err_0 == Error::HomeMissing,
        home ==> r is Ok,
        home && macos ==> (r->Ok_0 matches Location::Home(path) && path@
            == "Library/Application Support/Teleport"@),
        home && !macos && config ==> (r->Ok_0 matches Location::Config(path) && path@
            == "teleport"@),
        home && !macos && !config ==> (r->Ok_0 matches Location::Home(path) && path@
            == ".config/teleport"@),
{
}

// -------------------------------------------------------------------- the host

/// A desktop is described by its width and its height, in this order, and offers nothing
/// that was not asked for.
pub proof fn a_desktop_is_described(
    width: u32,
    height: u32,
    fps: u32,
    source: Seq<char>,
    r: Desktop,
)
    requires
        host::described(width, height, fps, source, r),
    ensures
        r.width == width,
        r.height == height,
        r.fps == fps,
        r.source@ == source,
        r.version == 2,
        r.codec == VideoCodec::H264,
        !r.audio && !r.clipboard && !r.telemetry && !r.configurable_video,
        r.monitors@.len() == 0,
{
}

/// The picture has the width that was asked for, made even, and the height that goes with it,
/// as long as that is within 4320.
pub proof fn pictures_are_scaled(
    width: u32,
    native_width: u32,
    native_height: u32,
    r: Result<(u32, u32), Error>,
)
    requires
        native_width > 0,
        host::scaled(width, native_width, native_height, r),
    ensures
        r matches Ok((w, h)) ==> {
            &&& w % 2 == 0 && h % 2 == 0
            &&& w <= width <= w + 1
            &&& 2 <= h <= 4320
            &&& h > 2 ==> h * native_width <= w * native_height
            &&& w * native_height < (h + 2) * native_width
        },
        r matches Err(e) ==> e == Error::ScaledHeight,
        width == native_width && width % 2 == 0 && native_height % 2 == 0 && 2 <= native_height
            <= 4320 ==> r == Ok::<(u32, u32), Error>((width, native_height)),
{
    pictures_keep_their_shape(width, native_width, native_height);
}

/// Events are taken in the order of their numbers, and a gap changes nothing.
pub proof fn events_are_taken_in_order(
    before: host::InputOrder,
    sequence: u64,
    after: host::InputOrder,
    r: Result<(), Error>,
)
    requires
        before.taken(sequence, after, r),
        before.sequence < u64::MAX,
    ensures
        sequence == before.sequence ==> r is Ok && after.sequence == before.sequence + 1,
        sequence != before.sequence ==> r == Err::<(), Error>(Error::InputGap) && after == before,
        after.group == before.group,
{
}

/// A text that was read is the text of its bytes, within 64 kibibytes, and without a NUL.
pub proof fn texts_are_read(bytes: Seq<u8>, succeeded: bool, r: Result<String, Error>)
    requires
        crate::clipboard::readable(bytes, succeeded, r),
    ensures
        r matches Ok(text) ==> encode_utf8(text@) == bytes && bytes.len() <= 65_536 && succeeded,
        bytes.len() > 65_536 ==> r == Err::<String, Error>(Error::ClipboardTooLong),
        bytes.len() <= 65_536 && !succeeded ==> r == Err::<String, Error>(Error::ClipboardRead),
        bytes.len() <= 65_536 && succeeded && !vstd::utf8::valid_utf8(bytes) ==> r == Err::<
            String,
            Error,
        >(Error::ClipboardEncoding),
{
}

} // verus!
