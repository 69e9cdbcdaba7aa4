//! Video on its way: which encoder to use, how fast to send, which groups to
//! read, and what a decoded picture must look like. Pipelines are described here
//! and run elsewhere.
use crate::error::Error;
use crate::protocol;
use crate::text;
use vstd::prelude::*;

verus! {

/// How many bytes may wait for the decoder.
pub const MAX_QUEUED: u64 = 16_777_216;

/// How late a picture may be before it is skipped, in milliseconds.
pub const LATENCY_MS: u64 = 100;

#[derive(Clone, Copy, PartialEq, Eq, Structural, Debug)]
pub enum EncoderKind {
    Auto,
    Software,
    Vaapi,
    Nvidia,
}

impl Default for EncoderKind {
    fn default() -> (r: Self)
        ensures
            r == EncoderKind::Auto,
    {
        EncoderKind::Auto
    }
}

/// The distance of key frames: a quarter of a second, one frame at least.
pub open spec fn gop_of(fps: u32) -> nat {
    if fps / 4 < 1 {
        1
    } else {
        (fps / 4) as nat
    }
}

pub const X264: &'static str =
    "x264enc name=video_encoder tune=zerolatency speed-preset=ultrafast bitrate=";

pub const X264_GOP: &'static str = " key-int-max=";

pub const X264_END: &'static str = " bframes=0 threads=4 ! video/x-h264,profile=constrained-baseline";

pub const VA: &'static str = "vah264enc name=video_encoder bitrate=";

pub const VA_END: &'static str = " b-frames=0 rate-control=cbr";

pub const NV: &'static str = "nvh264enc name=video_encoder bitrate=";

pub const NV_GOP: &'static str = " gop-size=";

pub const NV_END: &'static str = " bframes=0 zerolatency=true rc-mode=cbr";

/// The encoder's part of a pipeline.
pub open spec fn encoder_text(kind: EncoderKind, fps: u32, bitrate: u32) -> Seq<char> {
    let rate = text::decimal(bitrate as nat);
    let gop = text::decimal(gop_of(fps));
    match kind {
        EncoderKind::Vaapi => VA@ + rate + X264_GOP@ + gop + VA_END@,
        EncoderKind::Nvidia => NV@ + rate + NV_GOP@ + gop + NV_END@,
        _ => X264@ + rate + X264_GOP@ + gop + X264_END@,
    }
}

/// Automatic choice must have been made.
pub fn encoder_fragment(kind: EncoderKind, fps: u32, bitrate: u32) -> (r: String)
    requires
        kind != EncoderKind::Auto,
    ensures
        r@ == encoder_text(kind, fps, bitrate),
{
    let gop: u32 = if fps / 4 < 1 {
        1
    } else {
        fps / 4
    };
    let (start, middle, end) = match kind {
        EncoderKind::Vaapi => (VA, X264_GOP, VA_END),
        EncoderKind::Nvidia => (NV, NV_GOP, NV_END),
        _ => (X264, X264_GOP, X264_END),
    };
    let mut out = String::new();
    out.push_str(start);
    text::push_decimal(&mut out, bitrate as u64);
    out.push_str(middle);
    text::push_decimal(&mut out, gop as u64);
    out.push_str(end);
    assert(out@ =~= encoder_text(kind, fps, bitrate));
    out
}

pub const PROBE: &'static str = "videotestsrc num-buffers=3 ! video/x-raw,format=NV12,width=";

pub const PROBE_END: &'static str = " ! h264parse ! appsink name=probe sync=false";

pub const ENCODE_QUEUE: &'static str =
    " ! queue max-size-buffers=2 max-size-bytes=0 max-size-time=0 leaky=downstream ! videoconvert ! videoscale ! videorate drop-only=true ! video/x-raw,format=NV12,width=";

pub const ENCODE_END: &'static str =
    " ! h264parse config-interval=-1 ! video/x-h264,stream-format=byte-stream,alignment=au ! appsink name=encoded sync=false max-buffers=2 drop=false";

pub open spec fn sized(
    start: Seq<char>,
    width: u32,
    height: u32,
    fps: u32,
    kind: EncoderKind,
    bitrate: u32,
    end: Seq<char>,
) -> Seq<char> {
    start + text::decimal(width as nat) + ",height="@ + text::decimal(height as nat)
        + ",framerate="@ + text::decimal(fps as nat) + "/1 ! "@ + encoder_text(kind, fps, bitrate)
        + end
}

fn push_sized(
    out: &mut String,
    width: u32,
    height: u32,
    fps: u32,
    kind: EncoderKind,
    bitrate: u32,
    end: &str,
)
    requires
        kind != EncoderKind::Auto,
    ensures
        final(out)@ == sized(old(out)@, width, height, fps, kind, bitrate, end@),
{
    text::push_decimal(out, width as u64);
    out.push_str(",height=");
    text::push_decimal(out, height as u64);
    out.push_str(",framerate=");
    text::push_decimal(out, fps as u64);
    out.push_str("/1 ! ");
    let fragment = encoder_fragment(kind, fps, bitrate);
    out.push_str(fragment.as_str());
    out.push_str(end);
}

/// A pipeline that shows whether an encoder works: it encodes three test pictures.
/// The plugin alone says little, since drivers and devices may be missing.
pub fn probe_description(kind: EncoderKind, width: u32, height: u32, fps: u32, bitrate: u32) -> (r:
    String)
    requires
        kind != EncoderKind::Auto,
    ensures
        r@ == sized(PROBE@, width, height, fps, kind, bitrate, PROBE_END@),
{
    let mut out = String::new();
    out.push_str(PROBE);
    assert(out@ =~= PROBE@);
    push_sized(&mut out, width, height, fps, kind, bitrate, PROBE_END);
    out
}

/// The pipeline from a source of pictures to encoded frames.
pub fn encoder_description(
    source: &str,
    kind: EncoderKind,
    width: u32,
    height: u32,
    fps: u32,
    bitrate: u32,
) -> (r: String)
    requires
        kind != EncoderKind::Auto,
    ensures
        r@ == sized(source@ + ENCODE_QUEUE@, width, height, fps, kind, bitrate, ENCODE_END@),
{
    let mut out = String::new();
    out.push_str(source);
    out.push_str(ENCODE_QUEUE);
    assert(out@ =~= source@ + ENCODE_QUEUE@);
    push_sized(&mut out, width, height, fps, kind, bitrate, ENCODE_END);
    out
}

/// What to do next about an encoder.
#[derive(Clone, Copy, PartialEq, Eq, Structural, Debug)]
pub enum EncoderStep {
    /// Use it.
    Use(EncoderKind),
    /// Find out whether it works.
    Probe(EncoderKind),
    /// The one that was asked for does not.
    Fail(EncoderKind),
}

/// The next step with this wish, where this many encoders have failed.
pub open spec fn selection(kind: EncoderKind, failed: usize) -> EncoderStep {
    match kind {
        EncoderKind::Software => EncoderStep::Use(EncoderKind::Software),
        EncoderKind::Auto => if failed == 0 {
            EncoderStep::Probe(EncoderKind::Vaapi)
        } else if failed == 1 {
            EncoderStep::Probe(EncoderKind::Nvidia)
        } else {
            EncoderStep::Use(EncoderKind::Software)
        },
        _ => if failed == 0 {
            EncoderStep::Probe(kind)
        } else {
            EncoderStep::Fail(kind)
        },
    }
}

/// The step after `failed` probes have failed. Automatic choice tries the hardware
/// encoders in order and ends with the software one, which needs no probe; a
/// hardware encoder that was asked for is used or nothing is.
pub fn select_encoder(kind: EncoderKind, failed: usize) -> (r: EncoderStep)
    ensures
        r == selection(kind, failed),
        r != EncoderStep::Use(EncoderKind::Auto),
        r != EncoderStep::Probe(EncoderKind::Auto),
{
    match kind {
        EncoderKind::Software => EncoderStep::Use(EncoderKind::Software),
        EncoderKind::Auto => if failed == 0 {
            EncoderStep::Probe(EncoderKind::Vaapi)
        } else if failed == 1 {
            EncoderStep::Probe(EncoderKind::Nvidia)
        } else {
            EncoderStep::Use(EncoderKind::Software)
        },
        _ => if failed == 0 {
            EncoderStep::Probe(kind)
        } else {
            EncoderStep::Fail(kind)
        },
    }
}

pub fn check_bitrate(kbps: u32) -> (r: Result<(), Error>)
    ensures
        r is Ok <==> 0 < kbps <= 100_000,
        r matches Err(e) ==> e == Error::VideoBitrate,
{
    if kbps > 0 && kbps <= 100_000 {
        Ok(())
    } else {
        Err(Error::VideoBitrate)
    }
}

/// What to do with an encoded frame.
#[derive(Clone, Copy, PartialEq, Eq, Structural, Debug)]
pub struct SampleStep {
    /// End the group that is open.
    pub finish: bool,
    /// Begin a group.
    pub open: bool,
    /// Write the frame to the open group.
    pub write: bool,
}

/// What is done with a frame that does or does not need the one before.
pub open spec fn sampled(delta: bool, group_open: bool) -> SampleStep {
    SampleStep { finish: !delta && group_open, open: !delta, write: !delta || group_open }
}

/// A key frame begins a group, so that every group can be decoded by itself; what
/// comes before the first key frame is lost.
pub fn encoded_sample(delta: bool, group_open: bool) -> (r: SampleStep)
    ensures
        r == sampled(delta, group_open),
{
    SampleStep { finish: !delta && group_open, open: !delta, write: !delta || group_open }
}

pub const DECODE: &'static str =
    "appsrc name=in is-live=true format=time do-timestamp=true max-bytes=16777216 block=false caps=video/x-h264,stream-format=byte-stream,alignment=au ! h264parse ! ";

pub const DECODE_END: &'static str =
    " ! videoconvert ! video/x-raw,format=RGB ! appsink name=frames sync=false max-buffers=1 drop=true";

pub const VIDEOTOOLBOX: &'static str = "vtdec_hw";

pub const SOFTWARE_H264: &'static str = "avdec_h264 max-threads=2";

pub open spec fn decoder_text(force_software: bool, native: bool) -> Seq<char> {
    DECODE@ + (if !force_software && native {
        VIDEOTOOLBOX@
    } else {
        SOFTWARE_H264@
    }) + DECODE_END@
}

/// The pipeline from received frames to pictures. `native` says that the decoder
/// of a Mac is there.
pub fn decoder_description(force_software: bool, native: bool) -> (r: String)
    ensures
        r@ == decoder_text(force_software, native),
{
    let mut out = String::new();
    out.push_str(DECODE);
    out.push_str(
        if !force_software && native {
            VIDEOTOOLBOX
        } else {
            SOFTWARE_H264
        },
    );
    out.push_str(DECODE_END);
    assert(out@ =~= decoder_text(force_software, native));
    out
}

/// A group with the number `next` is newer than all that were begun.
pub open spec fn newer(sequence: Option<u64>, next: u64) -> bool {
    match sequence {
        Some(previous) => next > previous,
        None => true,
    }
}

/// What arrives while a frame is read from the open group: another group, or more of
/// the frame.
pub enum MediaInput {
    Group(u64),
    Bytes(Seq<u8>),
}

/// The reading of one frame: the number of the group it belongs to, and what has come
/// of it, once it was announced.
pub struct MediaRead {
    pub sequence: Option<u64>,
    pub frame: Option<Vec<u8>>,
}

/// What a reading knows.
#[verifier::ext_equal]
pub struct MediaReadView {
    pub sequence: Option<u64>,
    pub frame: Option<Seq<u8>>,
}

impl View for MediaRead {
    type V = MediaReadView;

    open spec fn view(&self) -> MediaReadView {
        MediaReadView {
            sequence: self.sequence,
            frame: match self.frame {
                Some(bytes) => Some(bytes@),
                None => None,
            },
        }
    }
}

impl MediaReadView {
    /// After one thing has arrived. Only a newer group takes the place of the open
    /// one, and of the frame that is read from it.
    pub open spec fn after(self, input: MediaInput) -> MediaReadView {
        match input {
            MediaInput::Group(next) => if newer(self.sequence, next) {
                MediaReadView { sequence: Some(next), frame: None }
            } else {
                self
            },
            MediaInput::Bytes(more) => match self.frame {
                Some(bytes) => MediaReadView { frame: Some(bytes + more), ..self },
                None => self,
            },
        }
    }

    /// After all these have arrived.
    pub open spec fn after_all(self, inputs: Seq<MediaInput>) -> MediaReadView
        decreases inputs.len(),
    {
        if inputs.len() == 0 {
            self
        } else {
            self.after_all(inputs.drop_last()).after(inputs.last())
        }
    }
}

impl MediaRead {
    /// Nothing has come of the next frame of the group with this number, if one is
    /// open.
    pub fn new(sequence: Option<u64>) -> (r: Self)
        ensures
            r@ == (MediaReadView { sequence, frame: None }),
    {
        MediaRead { sequence, frame: None }
    }

    /// A group arrives. Returns whether it takes over.
    pub fn group(&mut self, next: u64) -> (r: bool)
        ensures
            r == newer(old(self)@.sequence, next),
            final(self)@ == old(self)@.after(MediaInput::Group(next)),
    {
        let takes_over = match self.sequence {
            Some(previous) => next > previous,
            None => true,
        };
        if takes_over {
            self.sequence = Some(next);
            self.frame = None;
        }
        takes_over
    }

    /// A frame of this size is announced.
    pub fn announced(&mut self, size: u64, limit: usize) -> (r: Result<(), Error>)
        ensures
            r is Ok <==> size <= limit,
            r matches Err(e) ==> e == Error::FrameLimit && final(self)@ == old(self)@,
            r is Ok ==> final(self)@ == (MediaReadView {
                frame: Some(Seq::empty()),
                ..old(self)@
            }),
    {
        match protocol::check_frame(size, limit) {
            Ok(()) => {},
            Err(e) => return Err(e),
        }
        let empty: Vec<u8> = Vec::new();
        assert(empty@ =~= Seq::<u8>::empty());
        self.frame = Some(empty);
        Ok(())
    }

    /// More of the frame has come.
    pub fn bytes(&mut self, more: &[u8])
        ensures
            final(self)@ == old(self)@.after(MediaInput::Bytes(more@)),
    {
        let mut taken: Option<Vec<u8>> = None;
        std::mem::swap(&mut taken, &mut self.frame);
        self.frame = match taken {
            Some(mut bytes) => {
                bytes.extend_from_slice(more);
                assert(bytes@ =~= old(self).frame->0@ + more@);
                Some(bytes)
            },
            None => None,
        };
    }

    /// The frame is complete: this is all of it.
    pub fn complete(&mut self) -> (r: Option<Vec<u8>>)
        ensures
            r is Some <==> old(self)@.frame is Some,
            r matches Some(bytes) ==> old(self)@.frame == Some(bytes@),
            final(self)@ == (MediaReadView { frame: None, ..old(self)@ }),
    {
        let mut taken: Option<Vec<u8>> = None;
        std::mem::swap(&mut taken, &mut self.frame);
        taken
    }
}

/// What the inputs hold of the frame, put together.
pub open spec fn joined(inputs: Seq<MediaInput>) -> Seq<u8>
    decreases inputs.len(),
{
    if inputs.len() == 0 {
        Seq::empty()
    } else {
        joined(inputs.drop_last()) + match inputs.last() {
            MediaInput::Bytes(more) => more,
            MediaInput::Group(_) => Seq::empty(),
        }
    }
}

/// Groups that are not newer, however many arrive in between, neither end nor restart
/// the frame that is being read: what comes out is the whole frame.
pub proof fn older_groups_leave_the_frame_alone(
    sequence: Option<u64>,
    frame: Seq<u8>,
    inputs: Seq<MediaInput>,
)
    requires
        forall|i: int|
            0 <= i < inputs.len() ==> (#[trigger] inputs[i] matches MediaInput::Group(next)
                ==> !newer(sequence, next)),
    ensures
        (MediaReadView { sequence, frame: Some(frame) }).after_all(inputs) == (MediaReadView {
            sequence,
            frame: Some(frame + joined(inputs)),
        }),
    decreases inputs.len(),
{
    if inputs.len() == 0 {
        assert(frame + joined(inputs) =~= frame);
    } else {
        let rest = inputs.drop_last();
        assert forall|i: int| 0 <= i < rest.len() implies (
        #[trigger] rest[i] matches MediaInput::Group(next) ==> !newer(sequence, next)) by {
            assert(rest[i] == inputs[i]);
        }
        older_groups_leave_the_frame_alone(sequence, frame, rest);
        assert(inputs[inputs.len() - 1] == inputs.last());
        assert(frame + joined(inputs) =~= (frame + joined(rest)) + match inputs.last() {
            MediaInput::Bytes(more) => more,
            MediaInput::Group(_) => Seq::empty(),
        });
    }
}

/// A newer group is preferred to a frame that is not complete, and groups are only
/// ever followed by newer ones.
pub proof fn newer_groups_take_over(read: MediaReadView, inputs: Seq<MediaInput>, next: u64)
    requires
        newer(read.after_all(inputs).sequence, next),
    ensures
        read.after_all(inputs).after(MediaInput::Group(next)) == (MediaReadView {
            sequence: Some(next),
            frame: None,
        }),
        newer(read.sequence, next),
    decreases inputs.len(),
{
    if inputs.len() > 0 {
        let before = read.after_all(inputs.drop_last());
        if inputs.last() matches MediaInput::Group(other) && newer(before.sequence, other) {
            assert(newer(before.sequence, next));
        }
        newer_groups_take_over(read, inputs.drop_last(), next);
    }
}

/// What the host is told of a queue: nothing is zero, and too much is the most.
pub open spec fn told_ms(queued_ms: Option<u64>) -> u32 {
    match queued_ms {
        Some(ms) => if ms > u32::MAX {
            u32::MAX
        } else {
            ms as u32
        },
        None => 0,
    }
}

/// The video groups that are being read.
pub struct VideoReceiver {
    /// The newest group that was begun.
    pub sequence: Option<u64>,
    /// A group is open.
    pub current: bool,
    /// Groups that were lost since the last feedback.
    pub dropped: u32,
}

/// `a + b`, or the largest number that fits.
pub open spec fn saturated(a: int, b: int) -> u32 {
    if a + b > u32::MAX {
        u32::MAX
    } else {
        (a + b) as u32
    }
}

impl VideoReceiver {
    pub fn new() -> (r: Self)
        ensures
            r.sequence is None,
            !r.current,
            r.dropped == 0,
    {
        VideoReceiver { sequence: None, current: false, dropped: 0 }
    }

    /// Only a newer group takes the place of the one that is being read; an older
    /// one that arrives late does not cancel a frame that is half read.
    pub fn is_newer(&self, sequence: u64) -> (r: bool)
        ensures
            r == newer(self.sequence, sequence),
    {
        match self.sequence {
            Some(previous) => sequence > previous,
            None => true,
        }
    }

    /// The groups lost when `next` follows: those between, and the one that is
    /// being read if it had not ended.
    pub open spec fn lost(&self, next: u64, unfinished: bool) -> int {
        (match self.sequence {
            Some(previous) => if next > previous {
                next - previous - 1
            } else {
                0
            },
            None => 0,
        }) + (if self.current && unfinished {
            1int
        } else {
            0int
        })
    }

    /// After a group has arrived: one that is not newer changes nothing.
    pub open spec fn begun(self, next: u64, unfinished: bool) -> VideoReceiver {
        if newer(self.sequence, next) {
            VideoReceiver {
                sequence: Some(next),
                current: true,
                dropped: saturated(self.dropped as int, self.lost(next, unfinished)),
            }
        } else {
            self
        }
    }

    /// A group begins. `unfinished` says that the open group had not ended.
    pub fn begin(&mut self, next: u64, unfinished: bool)
        ensures
            *final(self) == old(self).begun(next, unfinished),
    {
        if !self.is_newer(next) {
            return;
        }
        if let Some(previous) = self.sequence {
            let gap: u64 = if next > previous {
                next - previous - 1
            } else {
                0
            };
            self.lose(
                if gap > u32::MAX as u64 {
                    u32::MAX
                } else {
                    gap as u32
                },
            );
        }
        if self.current && unfinished {
            self.lose(1);
        }
        self.sequence = Some(next);
        self.current = true;
    }

    fn lose(&mut self, count: u32)
        ensures
            final(self).dropped == saturated(old(self).dropped as int, count as int),
            final(self).sequence == old(self).sequence,
            final(self).current == old(self).current,
    {
        self.dropped = self.dropped.saturating_add(count);
    }

    /// The open group has ended.
    pub fn ended(&mut self)
        ensures
            *final(self) == (VideoReceiver { current: false, ..*old(self) }),
    {
        self.current = false;
    }

    /// The open group broke off.
    pub fn broken(&mut self)
        ensures
            final(self).sequence == old(self).sequence,
            !final(self).current,
            final(self).dropped == saturated(old(self).dropped as int, 1),
    {
        self.lose(1);
        self.current = false;
    }

    /// A frame may be handed to a decoder that holds this many bytes.
    pub fn check_queue(queued: u64) -> (r: Result<(), Error>)
        ensures
            r is Ok <==> queued < MAX_QUEUED,
            r matches Err(e) ==> e == Error::DecoderBehind,
    {
        if queued < MAX_QUEUED {
            Ok(())
        } else {
            Err(Error::DecoderBehind)
        }
    }

    /// What is told to the host once a second. The count of losses begins anew.
    pub fn feedback(&mut self, queued_ms: Option<u64>) -> (r: (u32, u32))
        ensures
            r.0 == told_ms(queued_ms),
            r.1 == old(self).dropped,
            *final(self) == (VideoReceiver { dropped: 0, ..*old(self) }),
    {
        let queue_ms: u32 = match queued_ms {
            Some(ms) => if ms > u32::MAX as u64 {
                u32::MAX
            } else {
                ms as u32
            },
            None => 0,
        };
        let dropped: u32 = self.dropped;
        self.dropped = 0;
        (queue_ms, dropped)
    }
}

/// How fast to send: quickly down when the client falls behind, slowly up again.
/// To be asked at most once a second.
pub struct BitrateController {
    pub current: u32,
    pub ceiling: u32,
    pub clean_samples: u32,
}

/// The client falls behind.
pub open spec fn congested(queue_ms: u32, dropped_groups: u32) -> bool {
    queue_ms > 80 || dropped_groups >= 2
}

/// The client keeps up well.
pub open spec fn clear(queue_ms: u32, dropped_groups: u32) -> bool {
    queue_ms < 30 && dropped_groups == 0
}

impl BitrateController {
    /// The least rate: the ceiling, where it is low.
    pub open spec fn floor(&self) -> int {
        if self.ceiling < 500 {
            self.ceiling as int
        } else {
            500
        }
    }

    /// The rate never leaves its bounds.
    pub open spec fn wf(&self) -> bool {
        self.floor() <= self.current <= self.ceiling && self.clean_samples < 5
    }

    /// Three quarters of the rate.
    pub open spec fn reduced(&self) -> int {
        let tripled = if self.current * 3 > u32::MAX {
            u32::MAX as int
        } else {
            self.current * 3
        };
        if tripled / 4 < self.floor() {
            self.floor()
        } else {
            tripled / 4
        }
    }

    /// A twentieth of the ceiling more, or a hundred where that is more.
    pub open spec fn raised(&self) -> int {
        let step = if self.ceiling / 20 < 100 {
            100int
        } else {
            (self.ceiling / 20) as int
        };
        if self.current + step > self.ceiling {
            self.ceiling as int
        } else {
            self.current + step
        }
    }

    pub fn new(ceiling: u32) -> (r: Self)
        ensures
            r.wf(),
            r.current == ceiling,
            r.ceiling == ceiling,
            r.clean_samples == 0,
    {
        BitrateController { current: ceiling, ceiling, clean_samples: 0 }
    }

    /// The rate after the client has said this of a second, and what is reported.
    pub open spec fn observed(
        self,
        queue_ms: u32,
        dropped_groups: u32,
        after: BitrateController,
        r: Option<u32>,
    ) -> bool {
        let congested = congested(queue_ms, dropped_groups);
        let clear = clear(queue_ms, dropped_groups);
        &&& after.ceiling == self.ceiling
        &&& after.current == if congested {
            self.reduced()
        } else if clear && self.clean_samples == 4 {
            self.raised()
        } else {
            self.current as int
        }
        &&& after.clean_samples == if !congested && clear && self.clean_samples < 4 {
            self.clean_samples + 1
        } else {
            0
        }
        &&& r == if after.current != self.current {
            Some(after.current)
        } else {
            None
        }
    }

    /// What the client says of the last second. Returns the new rate if it changed.
    pub fn observe(&mut self, queue_ms: u32, dropped_groups: u32) -> (r: Option<u32>)
        requires
            old(self).wf(),
        ensures
            final(self).wf(),
            old(self).observed(queue_ms, dropped_groups, *final(self), r),
    {
        let previous: u32 = self.current;
        if queue_ms > 80 || dropped_groups >= 2 {
            let floor: u32 = if self.ceiling < 500 {
                self.ceiling
            } else {
                500
            };
            let tripled: u32 = if self.current > u32::MAX / 3 {
                u32::MAX
            } else {
                self.current * 3
            };
            self.current = if tripled / 4 < floor {
                floor
            } else {
                tripled / 4
            };
            self.clean_samples = 0;
        } else if queue_ms < 30 && dropped_groups == 0 {
            self.clean_samples = self.clean_samples + 1;
            if self.clean_samples >= 5 {
                let step: u32 = if self.ceiling / 20 < 100 {
                    100
                } else {
                    self.ceiling / 20
                };
                let sum: u32 = self.current.saturating_add(step);
                self.current = if sum > self.ceiling {
                    self.ceiling
                } else {
                    sum
                };
                self.clean_samples = 0;
            }
        } else {
            self.clean_samples = 0;
        }
        if previous != self.current {
            Some(self.current)
        } else {
            None
        }
    }
}

/// Congestion never raises the rate, and a raise never lowers it.
pub proof fn rate_moves_the_right_way(controller: BitrateController)
    requires
        controller.wf(),
    ensures
        controller.reduced() <= controller.current <= controller.raised() <= controller.ceiling,
        controller.floor() <= controller.reduced(),
        controller.current > controller.floor() && controller.current * 3 <= u32::MAX
            ==> controller.reduced() < controller.current,
        controller.current < controller.ceiling ==> controller.raised() > controller.current,
{
}

/// A decoded picture in eight-bit components. Where there are planes, they hold the
/// picture and `data` is empty.
pub struct Image {
    pub data: Vec<u8>,
    pub width: u32,
    pub height: u32,
    pub stride: usize,
    /// The video group that the picture came in, where it is known.
    pub video_group: Option<u64>,
    /// How often the decoder had been restarted when it made the picture.
    pub decoder_recovery: u64,
    pub nv12: Option<Nv12Image>,
    /// The picture has ten-bit planes.
    pub hdr: Option<P010Image>,
    /// The picture lies on a surface of the graphics processor.
    pub surface: bool,
}

pub struct Nv12Image {
    pub y: Vec<u8>,
    pub uv: Vec<u8>,
    pub y_stride: usize,
    pub uv_stride: usize,
}

pub struct P010Image {
    pub y: Vec<u8>,
    pub uv: Vec<u8>,
    pub y_stride: usize,
    pub uv_stride: usize,
}

/// The plugins that must be there, and those a host needs besides.
pub const REQUIRED: [&'static str; 8] = [
    "queue",
    "capsfilter",
    "appsrc",
    "appsink",
    "h264parse",
    "avdec_h264",
    "videoconvert",
    "videoscale",
];

pub const HOST_REQUIRED: [&'static str; 5] = [
    "pipewiresrc",
    "ximagesrc",
    "videotestsrc",
    "videorate",
    "x264enc",
];

pub const OPTIONAL: [&'static str; 6] = [
    "vah264enc",
    "nvh264enc",
    "opusenc",
    "opusdec",
    "pulsesrc",
    "autoaudiosink",
];

/// A look at the plugins that are installed.
pub struct Doctor {
    pub missing: bool,
}

impl Doctor {
    pub fn new() -> (r: Self)
        ensures
            !r.missing,
    {
        Doctor { missing: false }
    }

    /// A plugin that must be there was or was not found.
    pub fn required(&mut self, name: &str, found: bool) -> (r: String)
        ensures
            final(self).missing == (old(self).missing || !found),
            r@ == name@ + ": "@ + (if found {
                "ok"@
            } else {
                "MISSING"@
            }),
    {
        if !found {
            self.missing = true;
        }
        let mut line = String::new();
        line.push_str(name);
        line.push_str(": ");
        line.push_str(
            if found {
                "ok"
            } else {
                "MISSING"
            },
        );
        assert(line@ =~= name@ + ": "@ + (if found {
            "ok"@
        } else {
            "MISSING"@
        }));
        line
    }

    /// A plugin that may be missing was or was not found.
    pub fn optional(&self, name: &str, found: bool) -> (r: String)
        ensures
            r@ == name@ + ": "@ + (if found {
                "available"@
            } else {
                "unavailable"@
            }) + " (optional)"@,
    {
        let mut line = String::new();
        line.push_str(name);
        line.push_str(": ");
        line.push_str(
            if found {
                "available"
            } else {
                "unavailable"
            },
        );
        line.push_str(" (optional)");
        assert(line@ =~= name@ + ": "@ + (if found {
            "available"@
        } else {
            "unavailable"@
        }) + " (optional)"@);
        line
    }

    pub fn finish(&self) -> (r: Result<(), Error>)
        ensures
            r is Ok <==> !self.missing,
            r matches Err(e) ==> e == Error::MissingPlugins,
    {
        if self.missing {
            Err(Error::MissingPlugins)
        } else {
            Ok(())
        }
    }
}

} // verus!
