//! What host and client exchange once they trust each other: the metadata of a
//! desktop, the input events, and the rules that untrusted messages must keep.
use crate::error::Error;
use crate::text;
use std::collections::BTreeMap;
use vstd::prelude::*;
use vstd::utf8::encode_utf8;

verus! {

pub const VERSION: u32 = 2;

pub const WIRE_VERSION: &'static str = "moq-lite-05";

/// The largest media frame, in bytes.
pub const MAX_FRAME: usize = 8 * 1024 * 1024;

/// How long a gap in ordered input may last, in seconds.
pub const INPUT_TIMEOUT: u64 = 3;

/// The largest clipboard text, in bytes.
pub const MAX_TEXT: usize = 64 * 1024;

/// The largest control message, in bytes: a text in which every byte is escaped.
pub const MAX_CONTROL: usize = MAX_TEXT * 6 + 1024;

/// How far ahead of the expected control group another may arrive.
pub const REORDER_WINDOW: u64 = 16;

#[derive(Clone, Copy, PartialEq, Eq, Structural, Debug)]
pub enum VideoCodec {
    H264,
    H265,
}

/// HDR10 specifies PQ/BT.2020 limited-range 10-bit video, not mastering metadata.
#[derive(Clone, Copy, PartialEq, Eq, Structural, Debug)]
pub enum DynamicRange {
    Sdr,
    Hdr10,
}

impl Default for VideoCodec {
    fn default() -> (r: Self)
        ensures
            r == VideoCodec::H264,
    {
        VideoCodec::H264
    }
}

impl Default for DynamicRange {
    fn default() -> (r: Self)
        ensures
            r == DynamicRange::Sdr,
    {
        DynamicRange::Sdr
    }
}

impl DynamicRange {
    pub fn label(self) -> (r: &'static str)
        ensures
            r@ == (match self {
                DynamicRange::Sdr => "SDR"@,
                DynamicRange::Hdr10 => "HDR10 · PQ/BT.2020"@,
            }),
    {
        match self {
            DynamicRange::Sdr => "SDR",
            DynamicRange::Hdr10 => "HDR10 · PQ/BT.2020",
        }
    }
}

impl VideoCodec {
    pub open spec fn track_name(self) -> Seq<char> {
        match self {
            VideoCodec::H264 => "h264"@,
            VideoCodec::H265 => "h265"@,
        }
    }

    pub fn track(self) -> (r: &'static str)
        ensures
            r@ == self.track_name(),
    {
        match self {
            VideoCodec::H264 => "h264",
            VideoCodec::H265 => "h265",
        }
    }

    pub fn label(self) -> (r: &'static str)
        ensures
            r@ == (match self {
                VideoCodec::H264 => "H.264"@,
                VideoCodec::H265 => "H.265"@,
            }),
    {
        match self {
            VideoCodec::H264 => "H.264",
            VideoCodec::H265 => "H.265",
        }
    }
}

/// What a client needs to reach a host: the session token and the fingerprint of
/// the host's certificate.
pub struct Pairing {
    pub token: String,
    pub fingerprint: String,
}

#[verifier::ext_equal]
pub struct PairingView {
    pub token: Seq<char>,
    pub fingerprint: Seq<char>,
}

impl View for Pairing {
    type V = PairingView;

    open spec fn view(&self) -> PairingView {
        PairingView { token: self.token@, fingerprint: self.fingerprint@ }
    }
}

impl Clone for Pairing {
    fn clone(&self) -> (r: Self)
        ensures
            r@ == self@,
    {
        Pairing { token: self.token.clone(), fingerprint: self.fingerprint.clone() }
    }
}

/// Sixty-four hexadecimal digits with nothing but white space around them: the
/// text of a SHA-256 fingerprint.
pub open spec fn fingerprint_form(s: Seq<char>) -> bool {
    exists|start: int| fingerprint_at(s, start)
}

pub open spec fn fingerprint_at(s: Seq<char>, start: int) -> bool {
    &&& 0 <= start
    &&& start + 64 <= s.len()
    &&& forall|i: int| 0 <= i < start ==> text::white_space(#[trigger] s[i])
    &&& forall|i: int| start <= i < start + 64 ==> text::hex_digit(#[trigger] s[i])
    &&& forall|i: int| start + 64 <= i < s.len() ==> text::white_space(#[trigger] s[i])
}

/// The value of a hexadecimal digit.
pub open spec fn hex_value(c: char) -> int {
    if '0' <= c <= '9' {
        c as int - '0' as int
    } else if 'a' <= c <= 'f' {
        c as int - 'a' as int + 10
    } else {
        c as int - 'A' as int + 10
    }
}

/// The thirty-two bytes that sixty-four digits from `start` on stand for.
pub open spec fn fingerprint_bytes(s: Seq<char>, start: int) -> Seq<u8> {
    Seq::new(
        32,
        |i: int| (hex_value(s[start + 2 * i]) * 16 + hex_value(s[start + 2 * i + 1])) as u8,
    )
}

/// `moq_native::tls::parse_fingerprint` trims white space from both ends and
/// decodes what is left as hexadecimal, in either case; it succeeds exactly where
/// that gives thirty-two bytes.
#[verifier::external_body]
pub(crate) fn parse_fingerprint(value: &str) -> (r: Option<Vec<u8>>)
    ensures
        r is Some <==> fingerprint_form(value@),
        r matches Some(bytes) ==> forall|start: int| #[trigger]
            fingerprint_at(value@, start) ==> bytes@ == fingerprint_bytes(value@, start),
{
    Some(moq_native::tls::parse_fingerprint(value).ok()?.to_vec())
}

pub fn parses_as_fingerprint(value: &str) -> (r: bool)
    ensures
        r == fingerprint_form(value@),
{
    parse_fingerprint(value).is_some()
}

/// The two texts are fingerprints of one certificate.
pub open spec fn same_certificate(a: Seq<char>, b: Seq<char>) -> bool {
    exists|i: int, j: int| #[trigger]
        fingerprint_at(a, i) && #[trigger] fingerprint_at(b, j) && fingerprint_bytes(a, i)
            == fingerprint_bytes(b, j)
}

impl PairingView {
    pub open spec fn valid(self) -> bool {
        text::token_form(self.token) && fingerprint_form(self.fingerprint)
    }
}

impl Pairing {
    /// The token is sixty-four hexadecimal digits, and the fingerprint is one.
    pub fn validate(&self) -> (r: Result<(), Error>)
        ensures
            r is Ok <==> self@.valid(),
            r == Err::<(), Error>(Error::PairingToken) <==> !text::token_form(self.token@),
            r == Err::<(), Error>(Error::Fingerprint) <==> text::token_form(self.token@)
                && !fingerprint_form(self.fingerprint@),
    {
        if !text::is_token_form(self.token.as_str()) {
            return Err(Error::PairingToken);
        }
        if !parses_as_fingerprint(self.fingerprint.as_str()) {
            return Err(Error::Fingerprint);
        }
        Ok(())
    }
}

pub struct Monitor {
    pub id: usize,
    pub name: String,
    pub width: u32,
    pub height: u32,
}

/// What the host says of the desktop it sends.
pub struct Desktop {
    pub dynamic_range: DynamicRange,
    pub codec: VideoCodec,
    pub codecs: Vec<VideoCodec>,
    pub version: u32,
    pub width: u32,
    pub height: u32,
    pub fps: u32,
    pub source: String,
    pub monitors: Vec<Monitor>,
    pub active_monitor: usize,
    pub audio: bool,
    pub clipboard: bool,
    pub telemetry: bool,
    pub configurable_video: bool,
    pub native_width: u32,
    pub native_height: u32,
    pub bitrate: u32,
    /// First video group belonging to these settings; zero for older hosts.
    pub video_start_group: u64,
}

pub enum Update {
    Telemetry { encode_us: u64, bitrate: u32, encoder: String },
    Pong { id: u64 },
    Desktop { desktop: Desktop },
    Clipboard { text: String },
    Notice { text: String },
}

pub struct Input {
    pub sequence: u64,
    pub event: Event,
}

/// An input event. The coordinates of `Motion` are the bit patterns of IEEE 754
/// double-precision numbers.
#[allow(inconsistent_fields)]
#[derive(Debug, PartialEq, Eq)]
pub enum Event {
    Motion { x: u64, y: u64 },
    Button { button: u8, down: bool },
    Key { code: u16, down: bool },
    Scroll { x: i32, y: i32 },
    ReleaseAll,
    Ping,
    Probe { id: u64 },
    ConfigureVideo { width: u32, fps: u32, bitrate: u32 },
    SelectMonitor { index: usize },
    Feedback { queue_ms: u32, dropped_groups: u32 },
    Clipboard { text: String },
    ClipboardRequest,
}

/// The sign, exponent and fraction fields of a double-precision number.
pub open spec fn double_sign(bits: u64) -> int {
    bits as int / 0x8000_0000_0000_0000
}

pub open spec fn double_exponent(bits: u64) -> int {
    bits as int / 0x10_0000_0000_0000 % 0x800
}

pub open spec fn double_fraction(bits: u64) -> int {
    bits as int % 0x10_0000_0000_0000
}

/// The double-precision number with these bits is finite and lies between zero
/// and one, both included. Numbers below one have a biased exponent under 1023;
/// one is the number with that exponent and no fraction; the only member with a
/// sign is negative zero.
pub open spec fn unit_interval(bits: u64) -> bool {
    if double_sign(bits) == 0 {
        double_exponent(bits) < 1023 || double_exponent(bits) == 1023 && double_fraction(bits) == 0
    } else {
        double_exponent(bits) == 0 && double_fraction(bits) == 0
    }
}

/// Patterns of numbers that are not negative are ordered as the numbers are, so
/// one comparison with the pattern of one decides.
pub fn in_unit_interval(bits: u64) -> (r: bool)
    ensures
        r == unit_interval(bits),
{
    bits <= 0x3FF0_0000_0000_0000 || bits == 0x8000_0000_0000_0000
}

impl Event {
    /// What the host accepts from a client.
    pub open spec fn valid(self) -> bool {
        match self {
            Event::ConfigureVideo { width, fps, bitrate } => (width == 0 || 320 <= width <= 7680)
                && 1 <= fps <= 120 && 500 <= bitrate <= 100_000,
            Event::Motion { x, y } => unit_interval(x) && unit_interval(y),
            Event::Button { button, .. } => 1 <= button <= 3,
            Event::Key { code, .. } => 1 <= code <= 127,
            Event::Scroll { x, y } => -20 <= x <= 20 && -20 <= y <= 20,
            Event::SelectMonitor { index } => index < 64,
            Event::Clipboard { text } => encode_utf8(text@).len() <= MAX_TEXT && !text@.contains(
                '\0',
            ),
            Event::Feedback { queue_ms, dropped_groups } => queue_ms <= 60_000 && dropped_groups
                <= 100_000,
            Event::ReleaseAll | Event::Ping | Event::Probe { .. } | Event::ClipboardRequest => true,
        }
    }

    /// The complaint about an event of this kind.
    pub open spec fn complaint(self) -> Error {
        match self {
            Event::ConfigureVideo { .. } => Error::VideoSettings,
            Event::Motion { .. } => Error::PointerCoordinates,
            Event::Button { .. } => Error::UnsupportedButton,
            Event::Key { .. } => Error::UnsupportedKey,
            Event::Scroll { .. } => Error::ScrollRange,
            Event::SelectMonitor { .. } => Error::MonitorIndex,
            Event::Clipboard { .. } => Error::ClipboardText,
            _ => Error::VideoFeedback,
        }
    }

    pub fn validate(&self) -> (r: Result<(), Error>)
        ensures
            r is Ok <==> self.valid(),
            r matches Err(e) ==> e == self.complaint(),
    {
        match self {
            Event::ConfigureVideo { width, fps, bitrate } => {
                if !((*width == 0 || (320 <= *width && *width <= 7680)) && 1 <= *fps && *fps <= 120
                    && 500 <= *bitrate && *bitrate <= 100_000) {
                    return Err(Error::VideoSettings);
                }
            },
            Event::Motion { x, y } => {
                if !(in_unit_interval(*x) && in_unit_interval(*y)) {
                    return Err(Error::PointerCoordinates);
                }
            },
            Event::Button { button, .. } => {
                if !(1 <= *button && *button <= 3) {
                    return Err(Error::UnsupportedButton);
                }
            },
            Event::Key { code, .. } => {
                if !(1 <= *code && *code <= 127) {
                    return Err(Error::UnsupportedKey);
                }
            },
            Event::Scroll { x, y } => {
                if !(-20 <= *x && *x <= 20 && -20 <= *y && *y <= 20) {
                    return Err(Error::ScrollRange);
                }
            },
            Event::SelectMonitor { index } => {
                if !(*index < 64) {
                    return Err(Error::MonitorIndex);
                }
            },
            Event::Clipboard { text } => {
                if !(text::byte_len(text.as_str()) <= MAX_TEXT && !text::contains(
                    text.as_str(),
                    '\0',
                )) {
                    return Err(Error::ClipboardText);
                }
            },
            Event::Feedback { queue_ms, dropped_groups } => {
                if !(*queue_ms <= 60_000 && *dropped_groups <= 100_000) {
                    return Err(Error::VideoFeedback);
                }
            },
            _ => {},
        }
        Ok(())
    }
}

/// A picture the decoder takes: within 7680 by 8192, and no more than 2^25 pixels.
pub open spec fn video_size_valid(width: u32, height: u32) -> bool {
    2 <= width <= 7680 && 2 <= height <= 8192 && width * height <= 33_554_432
}

pub fn validate_video_size(width: u32, height: u32) -> (r: Result<(), Error>)
    ensures
        r is Ok <==> video_size_valid(width, height),
        r matches Err(e) ==> e == Error::VideoSize,
{
    if 2 <= width && width <= 7680 && 2 <= height && height <= 8192 {
        assert(width * height <= 7680 * 8192) by (nonlinear_arith)
            requires
                width <= 7680,
                height <= 8192,
        ;
        if width * height <= 33_554_432 {
            return Ok(());
        }
    }
    Err(Error::VideoSize)
}

/// Whether a frame that announces `size` bytes may be read under `limit`.
pub fn check_frame(size: u64, limit: usize) -> (r: Result<(), Error>)
    ensures
        r is Ok <==> size <= limit,
        r matches Err(e) ==> e == Error::FrameLimit,
{
    if size <= limit as u64 {
        Ok(())
    } else {
        Err(Error::FrameLimit)
    }
}

/// Why a group with this number is refused while `expected` is awaited and others are
/// held: it is too old or too far ahead, or it came before.
pub open spec fn group_refused<T>(held: Map<u64, T>, expected: u64, sequence: u64) -> Option<
    Error,
> {
    if !(expected <= sequence <= expected + REORDER_WINDOW) {
        Some(Error::ReorderWindow)
    } else if expected < sequence && held.contains_key(sequence) {
        Some(Error::DuplicateGroup)
    } else {
        None
    }
}

/// What is held once a group with this number has come.
pub open spec fn held_after<T>(
    held: Map<u64, T>,
    expected: u64,
    sequence: u64,
    group: T,
) -> Map<u64, T> {
    if expected < sequence <= expected + REORDER_WINDOW {
        held.insert(sequence, group)
    } else {
        held
    }
}

/// What became of a control group that arrived.
pub enum Arrival<T> {
    /// It is the expected one.
    Ready(T),
    /// It came early, and waits.
    Held,
}

/// Control groups that arrived ahead of the expected one. Control history must
/// not be skipped when streams are reordered, so a group is handed on only when
/// its turn has come.
pub struct Reorder<T> {
    pending: BTreeMap<u64, T>,
}

impl<T> Reorder<T> {
    pub closed spec fn held(&self) -> Map<u64, T> {
        self.pending@
    }

    /// Everything held lies in the window after `expected`, or is `expected`.
    pub open spec fn within(&self, expected: u64) -> bool {
        forall|k: u64| #[trigger]
            self.held().contains_key(k) ==> expected <= k <= expected + REORDER_WINDOW
    }

    pub fn new() -> (r: Self)
        ensures
            r.held() == Map::<u64, T>::empty(),
    {
        Reorder { pending: BTreeMap::new() }
    }

    /// The held group whose turn it is, if it has arrived.
    pub fn take(&mut self, expected: u64) -> (r: Option<T>)
        ensures
            r is Some <==> old(self).held().contains_key(expected),
            r matches Some(group) ==> group == old(self).held()[expected],
            final(self).held() == old(self).held().remove(expected),
    {
        self.pending.remove(&expected)
    }

    /// Nothing is held: the next group may take any time. Otherwise a gap is
    /// open, and it must close within [`INPUT_TIMEOUT`].
    pub fn is_empty(&self) -> (r: bool)
        ensures
            r == self.held().is_empty(),
    {
        self.pending.is_empty()
    }

    /// A group arrives while `expected` is awaited.
    pub fn offer(&mut self, expected: u64, sequence: u64, group: T) -> (r: Result<
        Arrival<T>,
        Error,
    >)
        ensures
            r == match group_refused(old(self).held(), expected, sequence) {
                Some(e) => Err::<Arrival<T>, Error>(e),
                None => if sequence == expected {
                    Ok(Arrival::Ready(group))
                } else {
                    Ok(Arrival::Held)
                },
            },
            final(self).held() == held_after(old(self).held(), expected, sequence, group),
            old(self).within(expected) ==> final(self).within(expected),
    {
        if sequence < expected || sequence - expected > REORDER_WINDOW {
            return Err(Error::ReorderWindow);
        }
        if sequence == expected {
            return Ok(Arrival::Ready(group));
        }
        let replaced = self.pending.insert(sequence, group);
        proof {
            if old(self).within(expected) {
                assert forall|k: u64| #[trigger] self.held().contains_key(k) implies expected <= k
                    <= expected + REORDER_WINDOW by {
                    assert(k == sequence || old(self).held().contains_key(k));
                }
            }
        }
        match replaced {
            Some(_) => Err(Error::DuplicateGroup),
            None => Ok(Arrival::Held),
        }
    }
}

/// How far the reading of one group has come.
#[verifier::ext_equal]
pub struct Reading<T> {
    /// What is held afterwards.
    pub held: Map<u64, T>,
    /// How many of the arrivals were taken.
    pub used: nat,
    /// The group, or why the track is given up; nothing while it has not come.
    pub outcome: Option<Result<T, Error>>,
}

/// The reading of the group with the number `expected`, which is not held, from what
/// arrives.
pub open spec fn awaited<T>(held: Map<u64, T>, expected: u64, arrivals: Seq<(u64, T)>) -> Reading<T>
    decreases arrivals.len(),
{
    if arrivals.len() == 0 {
        Reading { held, used: 0, outcome: None }
    } else {
        let (sequence, group) = arrivals[0];
        let next = held_after(held, expected, sequence, group);
        match group_refused(held, expected, sequence) {
            Some(e) => Reading { held: next, used: 1, outcome: Some(Err(e)) },
            None => if sequence == expected {
                Reading { held: next, used: 1, outcome: Some(Ok(group)) }
            } else {
                let rest = awaited(next, expected, arrivals.skip(1));
                Reading { used: rest.used + 1, ..rest }
            },
        }
    }
}

/// The reading of the group with the number `expected`: it was held, or it is awaited.
pub open spec fn reading<T>(held: Map<u64, T>, expected: u64, arrivals: Seq<(u64, T)>) -> Reading<T> {
    if held.contains_key(expected) {
        Reading {
            held: held.remove(expected),
            used: 0,
            outcome: Some(Ok(held[expected])),
        }
    } else {
        awaited(held, expected, arrivals)
    }
}

/// Reads the group with the number `expected` from what has arrived, in the order in
/// which it did. What was not needed stays in `arrivals`.
pub fn ordered_group<T>(
    pending: &mut Reorder<T>,
    expected: u64,
    arrivals: &mut Vec<(u64, T)>,
) -> (r: Result<Option<T>, Error>)
    ensures
        ({
            let whole = reading(old(pending).held(), expected, old(arrivals)@);
            &&& final(pending).held() == whole.held
            &&& final(arrivals)@ == old(arrivals)@.skip(whole.used as int)
            &&& r == match whole.outcome {
                None => Ok::<Option<T>, Error>(None),
                Some(Ok(group)) => Ok(Some(group)),
                Some(Err(e)) => Err(e),
            }
        }),
{
    let ghost all = arrivals@;
    let ghost before = pending.held();
    if let Some(group) = pending.take(expected) {
        assert(all.skip(0) =~= all);
        return Ok(Some(group));
    }
    assert(pending.held() =~= before);
    let ghost mut used: nat = 0;
    assert(all.skip(0) =~= all);
    while arrivals.len() > 0
        invariant
            used <= all.len(),
            arrivals@ == all.skip(used as int),
            !before.contains_key(expected),
            awaited(before, expected, all).held == awaited(
                pending.held(),
                expected,
                arrivals@,
            ).held,
            awaited(before, expected, all).outcome == awaited(
                pending.held(),
                expected,
                arrivals@,
            ).outcome,
            awaited(before, expected, all).used == used + awaited(
                pending.held(),
                expected,
                arrivals@,
            ).used,
            before == old(pending).held(),
            all == old(arrivals)@,
        decreases arrivals@.len(),
    {
        let ghost left = arrivals@;
        let (sequence, group) = arrivals.remove(0);
        proof {
            assert(arrivals@ =~= left.skip(1));
            assert(left.skip(1) =~= all.skip(used as int + 1));
            used = used + 1;
        }
        match pending.offer(expected, sequence, group) {
            Ok(Arrival::Ready(group)) => return Ok(Some(group)),
            Ok(Arrival::Held) => {},
            Err(e) => return Err(e),
        }
    }
    Ok(None)
}

/// However the arrivals are dealt out over several calls, the reading is the same.
pub proof fn reading_goes_on<T>(
    held: Map<u64, T>,
    expected: u64,
    first: Seq<(u64, T)>,
    then_come: Seq<(u64, T)>,
)
    requires
        !held.contains_key(expected),
    ensures
        ({
            let begun = awaited(held, expected, first);
            let whole = awaited(held, expected, first + then_come);
            if begun.outcome is Some {
                whole == begun
            } else {
                let rest = awaited(begun.held, expected, then_come);
                &&& begun.used == first.len()
                &&& !begun.held.contains_key(expected)
                &&& whole == (Reading { used: begun.used + rest.used, ..rest })
            }
        }),
    decreases first.len(),
{
    if first.len() == 0 {
        assert(first + then_come =~= then_come);
    } else {
        let (sequence, group) = first[0];
        assert((first + then_come)[0] == first[0]);
        assert((first + then_come).skip(1) =~= first.skip(1) + then_come);
        if group_refused(held, expected, sequence) is None && sequence != expected {
            reading_goes_on(
                held_after(held, expected, sequence, group),
                expected,
                first.skip(1),
                then_come,
            );
        }
    }
}

/// A group that is read is the one that was awaited, and nothing is lost meanwhile:
/// it was held, and then no arrival is taken, or it is the last that was, and every
/// one before it is held under its own number, as is what was held before.
pub proof fn reading_loses_nothing<T>(held: Map<u64, T>, expected: u64, arrivals: Seq<(u64, T)>)
    ensures
        ({
            let whole = reading(held, expected, arrivals);
            &&& whole.used <= arrivals.len()
            &&& held.contains_key(expected) ==> whole.used == 0 && whole.outcome == Some(
                Ok::<T, Error>(held[expected]),
            )
            &&& !(whole.outcome matches Some(Err(_))) ==> {
                &&& forall|k: u64| #[trigger]
                    held.contains_key(k) && k != expected ==> whole.held.contains_key(k)
                        && whole.held[k] == held[k]
                &&& forall|i: int|
                    0 <= i < whole.used && (#[trigger] arrivals[i]).0 != expected
                        ==> whole.held.contains_key(arrivals[i].0) && whole.held[arrivals[i].0]
                        == arrivals[i].1
                &&& forall|i: int|
                    0 <= i < whole.used && (#[trigger] arrivals[i]).0 == expected ==> i
                        == whole.used - 1
            }
            &&& !held.contains_key(expected) ==> (whole.outcome matches Some(Ok(group))
                ==> whole.used > 0 && arrivals[whole.used - 1] == (expected, group))
            &&& whole.outcome is None ==> whole.used == arrivals.len()
        }),
{
    if !held.contains_key(expected) {
        waiting_loses_nothing(held, expected, arrivals);
    }
}

proof fn waiting_loses_nothing<T>(held: Map<u64, T>, expected: u64, arrivals: Seq<(u64, T)>)
    requires
        !held.contains_key(expected),
    ensures
        ({
            let whole = awaited(held, expected, arrivals);
            &&& whole.used <= arrivals.len()
            &&& !(whole.outcome matches Some(Err(_))) ==> {
                &&& forall|k: u64| #[trigger]
                    held.contains_key(k) ==> whole.held.contains_key(k) && whole.held[k] == held[k]
                &&& forall|i: int|
                    0 <= i < whole.used && (#[trigger] arrivals[i]).0 != expected
                        ==> whole.held.contains_key(arrivals[i].0) && whole.held[arrivals[i].0]
                        == arrivals[i].1
                &&& forall|i: int|
                    0 <= i < whole.used && (#[trigger] arrivals[i]).0 == expected ==> i
                        == whole.used - 1
            }
            &&& whole.outcome matches Some(Ok(group)) ==> whole.used > 0 && arrivals[whole.used
                - 1] == (expected, group)
            &&& whole.outcome is None ==> whole.used == arrivals.len()
        }),
    decreases arrivals.len(),
{
    if arrivals.len() > 0 {
        let (sequence, group) = arrivals[0];
        if group_refused(held, expected, sequence) is None && sequence != expected {
            let next = held_after(held, expected, sequence, group);
            let later = arrivals.skip(1);
            let rest = awaited(next, expected, later);
            let whole = awaited(held, expected, arrivals);
            waiting_loses_nothing(next, expected, later);
            if !(rest.outcome matches Some(Err(_))) {
                assert forall|k: u64| #[trigger] held.contains_key(k) implies whole.held.contains_key(
                    k,
                ) && whole.held[k] == held[k] by {
                    assert(next.contains_key(k) && next[k] == held[k]);
                }
                assert(next.contains_key(sequence));
                assert forall|i: int|
                    0 <= i < whole.used && (#[trigger] arrivals[i]).0
                        != expected implies whole.held.contains_key(arrivals[i].0)
                    && whole.held[arrivals[i].0] == arrivals[i].1 by {
                    if i > 0 {
                        assert(later[i - 1] == arrivals[i]);
                    }
                }
                assert forall|i: int|
                    0 <= i < whole.used && (#[trigger] arrivals[i]).0 == expected implies i
                    == whole.used - 1 by {
                    assert(later[i - 1] == arrivals[i]);
                }
            }
            if rest.outcome matches Some(Ok(_)) {
                assert(later[rest.used - 1] == arrivals[whole.used - 1]);
            }
        }
    }
}

/// What ends a reading: the last arrival that was taken is too old, too far ahead, or
/// has the number of one that is held.
pub proof fn refused_groups_end_the_reading<T>(
    held: Map<u64, T>,
    expected: u64,
    arrivals: Seq<(u64, T)>,
)
    ensures
        ({
            let whole = reading(held, expected, arrivals);
            whole.outcome matches Some(Err(e)) ==> {
                let sequence = arrivals[whole.used - 1].0;
                &&& 0 < whole.used <= arrivals.len()
                &&& e == Error::ReorderWindow && !(expected <= sequence <= expected
                    + REORDER_WINDOW) || e == Error::DuplicateGroup && (held.contains_key(sequence)
                    || exists|i: int|
                    0 <= i < whole.used - 1 && (#[trigger] arrivals[i]).0 == sequence)
            }
        }),
    decreases arrivals.len(),
{
    if !held.contains_key(expected) && arrivals.len() > 0 {
        let (sequence, group) = arrivals[0];
        if group_refused(held, expected, sequence) is None && sequence != expected {
            let next = held_after(held, expected, sequence, group);
            let later = arrivals.skip(1);
            refused_groups_end_the_reading(next, expected, later);
            let rest = awaited(next, expected, later);
            let whole = awaited(held, expected, arrivals);
            if rest.outcome matches Some(Err(_)) {
                assert(later[rest.used - 1] == arrivals[whole.used - 1]);
                let last = arrivals[whole.used - 1].0;
                if exists|i: int| 0 <= i < rest.used - 1 && (#[trigger] later[i]).0 == last {
                    let i = choose|i: int|
                        0 <= i < rest.used - 1 && (#[trigger] later[i]).0 == last;
                    assert(arrivals[i + 1] == later[i]);
                }
                if last == sequence {
                    assert(arrivals[0].0 == last);
                }
            }
        }
    }
}

/// The window is kept: once the expected group has been handed on and the count
/// has moved to the next, what is still held lies in the window after it.
pub proof fn reorder_window_is_kept<T>(before: Reorder<T>, after: Reorder<T>, expected: u64)
    requires
        expected < u64::MAX,
        before.within(expected),
        after.held() == before.held().remove(expected),
    ensures
        after.within((expected + 1) as u64),
{
    assert forall|k: u64| #[trigger] after.held().contains_key(k) implies expected + 1 <= k
        <= expected + 1 + REORDER_WINDOW by {
        assert(before.held().contains_key(k));
    }
}

/// The Linux key code for each USB HID usage that has one.
pub open spec fn key_code(usage: int) -> Option<u16> {
    let letters: Seq<u16> = seq![
        30, 48, 46, 32, 18, 33, 34, 35, 23, 36, 37, 38, 50, 49, 24, 25, 16, 19, 31, 20, 22, 47, 17,
        45, 21, 44,
    ];
    // Return to caps lock; the usage in the middle names no key.
    let middle: Seq<u16> = seq![28, 1, 14, 15, 57, 12, 13, 26, 27, 43, 0, 39, 40, 41, 51, 52, 53, 58];
    // F11 to the up arrow.
    let upper: Seq<u16> = seq![87, 88, 99, 70, 119, 110, 102, 104, 111, 107, 109, 106, 105, 108, 103];
    let modifiers: Seq<u16> = seq![29, 42, 56, 125, 97, 54, 100, 126];
    if 4 <= usage <= 29 {
        Some(letters[usage - 4])
    } else if 30 <= usage <= 39 {
        Some((usage - 28) as u16)
    } else if 40 <= usage <= 57 && usage != 50 {
        Some(middle[usage - 40])
    } else if 58 <= usage <= 67 {
        Some((usage + 1) as u16)
    } else if 68 <= usage <= 82 {
        Some(upper[usage - 68])
    } else if 224 <= usage <= 231 {
        Some(modifiers[usage - 224])
    } else {
        None
    }
}

/// SDL scancodes are USB HID usages; the desktop portal takes Linux key codes.
pub fn evdev(scancode: usize) -> (r: Option<u16>)
    ensures
        r == key_code(scancode as int),
{
    let letters: [u16; 26] = [
        30,
        48,
        46,
        32,
        18,
        33,
        34,
        35,
        23,
        36,
        37,
        38,
        50,
        49,
        24,
        25,
        16,
        19,
        31,
        20,
        22,
        47,
        17,
        45,
        21,
        44,
    ];
    match scancode {
        4..=29 => Some(letters[scancode - 4]),
        30..=38 => Some((scancode - 28) as u16),
        39 => Some(11),
        40 => Some(28),
        41 => Some(1),
        42 => Some(14),
        43 => Some(15),
        44 => Some(57),
        45 => Some(12),
        46 => Some(13),
        47 => Some(26),
        48 => Some(27),
        49 => Some(43),
        51 => Some(39),
        52 => Some(40),
        53 => Some(41),
        54 => Some(51),
        55 => Some(52),
        56 => Some(53),
        57 => Some(58),
        58..=67 => Some((scancode + 1) as u16),
        68 => Some(87),
        69 => Some(88),
        70 => Some(99),
        71 => Some(70),
        72 => Some(119),
        73 => Some(110),
        74 => Some(102),
        75 => Some(104),
        76 => Some(111),
        77 => Some(107),
        78 => Some(109),
        79 => Some(106),
        80 => Some(105),
        81 => Some(108),
        82 => Some(103),
        224 => Some(29),
        225 => Some(42),
        226 => Some(56),
        227 => Some(125),
        228 => Some(97),
        229 => Some(54),
        230 => Some(100),
        231 => Some(126),
        _ => None,
    }
}

/// Every key the client can send is one the host accepts.
pub proof fn mapped_keys_are_accepted(usage: int, down: bool)
    requires
        key_code(usage) is Some,
    ensures
        (Event::Key { code: key_code(usage)->0, down }).valid(),
{
}

/// No two keys of the keyboard are confused.
pub proof fn keys_map_one_to_one(a: int, b: int)
    requires
        key_code(a) is Some,
        key_code(a) == key_code(b),
    ensures
        a == b,
{
}

} // verus!
