//! The host: what it offers to a client, and the order in which it takes the
//! client's input.
use crate::crypto;
use crate::error::Error;
use crate::protocol::{self, Desktop, DynamicRange, VideoCodec};
use crate::text;
use vstd::prelude::*;

verus! {

/// The greatest height of a picture.
pub const MAX_HEIGHT: u32 = 4320;

/// The largest input event on the wire.
pub const MAX_INPUT: usize = 1024;

pub struct Options {
    /// The address to bind.
    pub listen: String,
    pub source: String,
    /// The new file for the credential; it is never overwritten.
    pub pairing_file: String,
    pub width: u32,
    pub fps: u32,
    /// In kilobits per second.
    pub bitrate: u32,
}

impl Options {
    /// What may be asked for.
    pub open spec fn valid(&self) -> bool {
        320 <= self.width <= 3840 && 1 <= self.fps <= 120 && 500 <= self.bitrate <= 100_000
    }
}

/// A credential is never overwritten.
pub fn check_pairing_file(exists: bool) -> (r: Result<(), Error>)
    ensures
        r is Ok <==> !exists,
        r matches Err(e) ==> e == Error::PairingFileExists,
{
    if exists {
        Err(Error::PairingFileExists)
    } else {
        Ok(())
    }
}

/// Where a client with this token asks for its session.
pub open spec fn session_path(token: Seq<char>) -> Seq<char> {
    "/teleport/"@ + token
}

/// Whether a request has the right path. The time that this takes does not depend
/// on where a path of the right length differs.
pub fn authorized(path: &str, token: &str) -> (r: bool)
    ensures
        r <==> path@ == session_path(token@),
{
    let mut expected = String::new();
    expected.push_str("/teleport/");
    expected.push_str(token);
    assert(expected@ =~= session_path(token@));
    let same = crypto::constant_time_eq(path.as_bytes(), expected.as_str().as_bytes());
    proof {
        if same {
            text::encoding_is_injective(path@, expected@);
        }
    }
    same
}

/// An even number, not above this one.
pub open spec fn even(n: int) -> int {
    n / 2 * 2
}

/// The height that keeps the shape of the desktop at this width.
pub open spec fn scaled_height(width: u32, native_width: u32, native_height: u32) -> int {
    let height = even(even(width as int) * native_height / native_width as int);
    if height < 2 {
        2
    } else {
        height
    }
}

/// The size of the picture for this width.
pub open spec fn scaled(
    width: u32,
    native_width: u32,
    native_height: u32,
    r: Result<(u32, u32), Error>,
) -> bool {
    &&& r is Ok <==> scaled_height(width, native_width, native_height) <= MAX_HEIGHT
    &&& r matches Ok((w, h)) ==> w == even(width as int) && h == scaled_height(
        width,
        native_width,
        native_height,
    )
    &&& r matches Err(e) ==> e == Error::ScaledHeight
}

/// The size of the picture: the width that was asked for, and a height to match,
/// both even.
pub fn scaled_size(width: u32, native_width: u32, native_height: u32) -> (r: Result<
    (u32, u32),
    Error,
>)
    requires
        native_width > 0,
    ensures
        scaled(width, native_width, native_height, r),
{
    let even_width: u32 = width / 2 * 2;
    assert(even_width * native_height <= 0xffff_ffff * 0xffff_ffff) by (nonlinear_arith)
        requires
            even_width <= 0xffff_ffff,
            native_height <= 0xffff_ffff,
    ;
    let product: u64 = even_width as u64 * native_height as u64;
    let quotient: u64 = product / native_width as u64;
    let scaled: u64 = quotient / 2 * 2;
    let height: u64 = if scaled < 2 {
        2
    } else {
        scaled
    };
    if height > MAX_HEIGHT as u64 {
        return Err(Error::ScaledHeight);
    }
    Ok((even_width, height as u32))
}

/// The description of a desktop of this size.
pub open spec fn described(
    width: u32,
    height: u32,
    fps: u32,
    source: Seq<char>,
    r: Desktop,
) -> bool {
    &&& r.version == protocol::VERSION
    &&& r.width == width
    &&& r.height == height
    &&& r.fps == fps
    &&& r.source@ == source
    &&& r.codec == VideoCodec::H264
    &&& r.dynamic_range == DynamicRange::Sdr
    &&& r.codecs@.len() == 0
    &&& r.monitors@.len() == 0
    &&& r.active_monitor == 0
    &&& !r.audio && !r.clipboard && !r.telemetry && !r.configurable_video
    &&& r.native_width == 0 && r.native_height == 0 && r.bitrate == 0 && r.video_start_group == 0
}

/// What a client is told of the desktop.
pub fn describe(width: u32, height: u32, fps: u32, source: &str) -> (r: Desktop)
    ensures
        described(width, height, fps, source@, r),
{
    Desktop {
        dynamic_range: DynamicRange::Sdr,
        codec: VideoCodec::H264,
        codecs: Vec::new(),
        version: protocol::VERSION,
        width,
        height,
        fps,
        source: source.to_string(),
        monitors: Vec::new(),
        active_monitor: 0,
        audio: false,
        clipboard: false,
        telemetry: false,
        configurable_video: false,
        native_width: 0,
        native_height: 0,
        bitrate: 0,
        video_start_group: 0,
    }
}

/// The input that has been taken. Groups come in the order that the reordering of
/// the protocol restores; within them, no event may be missing.
pub struct InputOrder {
    pub sequence: u64,
    pub group: u64,
}

impl InputOrder {
    pub fn new() -> (r: Self)
        ensures
            r.sequence == 0,
            r.group == 0,
    {
        InputOrder { sequence: 0, group: 0 }
    }

    /// The next group begins. Returns the one after it.
    pub fn next_group(&mut self) -> (r: u64)
        requires
            old(self).group < u64::MAX,
        ensures
            r == old(self).group,
            *final(self) == (InputOrder { group: (old(self).group + 1) as u64, ..*old(self) }),
    {
        let group: u64 = self.group;
        self.group = group + 1;
        group
    }

    /// The order once an event with this number has come.
    pub open spec fn taken(self, sequence: u64, after: InputOrder, r: Result<(), Error>) -> bool {
        &&& r is Ok <==> sequence == self.sequence
        &&& r is Ok ==> after == (InputOrder {
            sequence: (self.sequence + 1) as u64,
            ..self
        })
        &&& r matches Err(e) ==> e == Error::InputGap && after == self
    }

    /// An event with this number comes.
    pub fn take(&mut self, sequence: u64) -> (r: Result<(), Error>)
        requires
            old(self).sequence < u64::MAX,
        ensures
            old(self).taken(sequence, *final(self), r),
    {
        if sequence != self.sequence {
            return Err(Error::InputGap);
        }
        self.sequence = sequence + 1;
        Ok(())
    }
}

/// A picture that is offered has even sides, at most the width that was asked for,
/// and a height within the limit.
pub proof fn scaled_sizes_are_even(width: u32, native_width: u32, native_height: u32)
    requires
        native_width > 0,
        width >= 2,
    ensures
        even(width as int) % 2 == 0,
        2 <= even(width as int) <= width,
        scaled_height(width, native_width, native_height) % 2 == 0,
        2 <= scaled_height(width, native_width, native_height),
{
}

/// The shape of the desktop is kept: the height is the one that goes with the width,
/// rounded down to an even number, wherever that is not below two.
pub proof fn aspect_ratio_is_kept(width: u32, native_width: u32, native_height: u32)
    requires
        native_width > 0,
        2 <= even(width as int) * native_height / native_width as int,
    ensures
        ({
            let height = scaled_height(width, native_width, native_height);
            &&& height * native_width <= even(width as int) * native_height
            &&& even(width as int) * native_height < (height + 2) * native_width
        }),
{
    let product = even(width as int) * native_height;
    let exact = product / native_width as int;
    let height = scaled_height(width, native_width, native_height);
    assert(product >= 0) by (nonlinear_arith)
        requires
            product == even(width as int) * native_height,
            even(width as int) >= 0,
    ;
    assert(exact * native_width <= product < (exact + 1) * native_width) by (nonlinear_arith)
        requires
            exact == product / native_width as int,
            native_width > 0,
    ;
    assert(height <= exact <= height + 1);
    assert(height * native_width <= exact * native_width && (exact + 1) * native_width <= (height
        + 2) * native_width) by (nonlinear_arith)
        requires
            height <= exact <= height + 1,
            native_width > 0,
    ;
}

} // verus!
