//! The choice of a video decoder. A hardware decoder is used only once it has
//! decoded test pictures, in full precision and with every picture told apart.
use crate::error::Error;
use crate::lists;
use crate::protocol::{DynamicRange, VideoCodec};
use crate::text;
use std::collections::BTreeSet;
use vstd::prelude::*;

verus! {

#[derive(Clone, Copy, PartialEq, Eq, Structural, Debug)]
pub struct VideoFormat {
    pub codec: VideoCodec,
    pub dynamic_range: DynamicRange,
}

impl VideoFormat {
    pub open spec fn is_hdr(self) -> bool {
        self.dynamic_range == DynamicRange::Hdr10
    }

    pub fn hdr(self) -> (r: bool)
        ensures
            r == self.is_hdr(),
    {
        self.dynamic_range == DynamicRange::Hdr10
    }
}

/// The element that splits a stream of this codec into frames.
pub open spec fn parser_name(codec: VideoCodec) -> Seq<char> {
    match codec {
        VideoCodec::H264 => "h264parse"@,
        VideoCodec::H265 => "h265parse"@,
    }
}

pub fn parser(codec: VideoCodec) -> (r: &'static str)
    ensures
        r@ == parser_name(codec),
{
    match codec {
        VideoCodec::H264 => "h264parse",
        VideoCodec::H265 => "h265parse",
    }
}

/// The media type of a stream of this codec.
pub open spec fn media_type(codec: VideoCodec) -> Seq<char> {
    match codec {
        VideoCodec::H264 => "video/x-h264"@,
        VideoCodec::H265 => "video/x-h265"@,
    }
}

pub fn compressed_caps(codec: VideoCodec) -> (r: &'static str)
    ensures
        r@ == media_type(codec),
{
    match codec {
        VideoCodec::H264 => "video/x-h264",
        VideoCodec::H265 => "video/x-h265",
    }
}

/// The hardware decoders to try, in this order. VA covers AMD and Intel; QSV is one
/// more way on Intel.
pub open spec fn candidate_names(codec: VideoCodec, macos: bool) -> Seq<Seq<char>> {
    if macos {
        seq!["vtdec_hw"@]
    } else {
        match codec {
            VideoCodec::H264 => seq!["nvh264dec"@, "vah264dec"@, "qsvh264dec"@],
            VideoCodec::H265 => seq!["nvh265dec"@, "vah265dec"@, "qsvh265dec"@],
        }
    }
}

pub fn hardware_candidates(codec: VideoCodec, macos: bool) -> (r: Vec<&'static str>)
    ensures
        r@.len() == candidate_names(codec, macos).len(),
        forall|i: int| 0 <= i < r@.len() ==> (#[trigger] r@[i])@ == candidate_names(codec, macos)[i],
{
    let mut names: Vec<&'static str> = Vec::new();
    if macos {
        names.push("vtdec_hw");
    } else {
        match codec {
            VideoCodec::H264 => {
                names.push("nvh264dec");
                names.push("vah264dec");
                names.push("qsvh264dec");
            },
            VideoCodec::H265 => {
                names.push("nvh265dec");
                names.push("vah265dec");
                names.push("qsvh265dec");
            },
        }
    }
    names
}

pub open spec fn software_name(codec: VideoCodec) -> Seq<char> {
    match codec {
        VideoCodec::H264 => "avdec_h264"@,
        VideoCodec::H265 => "avdec_h265"@,
    }
}

pub fn software_decoder(codec: VideoCodec) -> (r: &'static str)
    ensures
        r@ == software_name(codec),
{
    match codec {
        VideoCodec::H264 => "avdec_h264",
        VideoCodec::H265 => "avdec_h265",
    }
}

/// What the decoder of a Mac wants between parser and decoder.
pub open spec fn parsed_caps(decoder: Seq<char>, codec: VideoCodec) -> Seq<char> {
    if decoder == "vtdec_hw"@ {
        " ! "@ + media_type(codec) + ",stream-format="@ + (match codec {
            VideoCodec::H264 => "avc"@,
            VideoCodec::H265 => "hvc1"@,
        }) + ",alignment=au"@
    } else {
        Seq::empty()
    }
}

/// The settings of a decoder, by its family.
pub open spec fn decoder_options(decoder: Seq<char>) -> Seq<char> {
    if text::has_prefix(decoder, "avdec_"@) {
        " max-threads=2"@
    } else if text::has_prefix(decoder, "nvh"@) {
        " max-display-delay=0"@
    } else {
        Seq::empty()
    }
}

pub open spec fn fragment_text(decoder: Seq<char>, codec: VideoCodec) -> Seq<char> {
    parser_name(codec) + parsed_caps(decoder, codec) + " ! "@ + decoder + " name=video_decoder"@
        + decoder_options(decoder) + " ! video/x-raw"@
}

/// The decoder's part of a pipeline. It ends in plain memory: what the hardware
/// decoded is copied there by the decoder itself, and nothing in between scales or
/// maps tones, which would lose precision or identity.
pub fn fragment(decoder: &str, codec: VideoCodec) -> (r: String)
    ensures
        r@ == fragment_text(decoder@, codec),
{
    let mut out = String::new();
    out.push_str(parser(codec));
    if text::same(decoder, "vtdec_hw") {
        out.push_str(" ! ");
        out.push_str(compressed_caps(codec));
        out.push_str(",stream-format=");
        out.push_str(
            match codec {
                VideoCodec::H264 => "avc",
                VideoCodec::H265 => "hvc1",
            },
        );
        out.push_str(",alignment=au");
    }
    assert(out@ =~= parser_name(codec) + parsed_caps(decoder@, codec));
    out.push_str(" ! ");
    out.push_str(decoder);
    out.push_str(" name=video_decoder");
    if text::starts_with(decoder, "avdec_") {
        out.push_str(" max-threads=2");
    } else if text::starts_with(decoder, "nvh") {
        out.push_str(" max-display-delay=0");
    }
    out.push_str(" ! video/x-raw");
    assert(out@ =~= fragment_text(decoder@, codec));
    out
}

pub const X265_MAIN10: &'static str =
    "x265enc tune=zerolatency speed-preset=ultrafast option-string=pools=1:frame-threads=1:log-level=error ! video/x-h265,profile=main-10";

pub const X264_BASELINE: &'static str =
    "x264enc tune=zerolatency speed-preset=ultrafast bframes=0 threads=2 ! video/x-h264,profile=constrained-baseline";

pub const X265_MAIN: &'static str =
    "x265enc tune=zerolatency speed-preset=ultrafast option-string=pools=1:frame-threads=1:log-level=error ! video/x-h265,profile=main";

pub open spec fn synthetic_text(format: VideoFormat) -> Seq<char> {
    if format.is_hdr() {
        X265_MAIN10@
    } else {
        match format.codec {
            VideoCodec::H264 => X264_BASELINE@,
            VideoCodec::H265 => X265_MAIN@,
        }
    }
}

/// The encoder of the test pictures.
pub fn synthetic_encoder(format: VideoFormat) -> (r: &'static str)
    ensures
        r@ == synthetic_text(format),
{
    if format.hdr() {
        return X265_MAIN10;
    }
    match format.codec {
        VideoCodec::H264 => X264_BASELINE,
        VideoCodec::H265 => X265_MAIN,
    }
}

pub const HDR_OUTPUT: &'static str =
    "capsfilter name=hdr_decoded caps=\"video/x-raw,format=(string){P010_10LE,I420_10LE,AYUV64},colorimetry=bt2100-pq;video/x-raw,format=(string){ARGB64_BE,RGBA64_LE},colorimetry=1:1:14:7\" ! videoconvert ! video/x-raw,format=P010_10LE,colorimetry=bt2100-pq,chroma-site=jpeg,width=[2,7680],height=[2,8192]";

pub const SDR_OUTPUT: &'static str =
    "videoconvert ! video/x-raw,format=RGB,width=[2,7680],height=[2,8192]";

pub open spec fn output_text(format: VideoFormat) -> Seq<char> {
    if format.is_hdr() {
        HDR_OUTPUT@
    } else {
        SDR_OUTPUT@
    }
}

/// What follows the decoder. For HDR, precision and transfer are checked before any
/// conversion, which must not make ten bits of eight.
pub fn output_fragment(format: VideoFormat) -> (r: &'static str)
    ensures
        r@ == output_text(format),
{
    if format.hdr() {
        HDR_OUTPUT
    } else {
        SDR_OUTPUT
    }
}

/// What to do next about a decoder.
#[derive(Clone, Copy)]
pub enum DecoderStep {
    /// Try this hardware decoder, if it is installed.
    Try(&'static str),
    /// The software decoder is what is left. It must pass the same test.
    Software(&'static str),
}

/// The next decoder, where this many were tried.
pub open spec fn chosen(
    force_software: bool,
    codec: VideoCodec,
    macos: bool,
    tried: usize,
    r: DecoderStep,
) -> bool {
    &&& match r {
        DecoderStep::Try(name) => {
            &&& !force_software
            &&& tried < candidate_names(codec, macos).len()
            &&& name@ == candidate_names(codec, macos)[tried as int]
        },
        DecoderStep::Software(name) => {
            &&& force_software || tried >= candidate_names(codec, macos).len()
            &&& name@ == software_name(codec)
        },
    }
}

/// The step after the first `tried` hardware decoders were missing or failed.
pub fn select(force_software: bool, codec: VideoCodec, macos: bool, tried: usize) -> (r: DecoderStep)
    ensures
        chosen(force_software, codec, macos, tried, r),
{
    if !force_software {
        let names = hardware_candidates(codec, macos);
        if tried < names.len() {
            return DecoderStep::Try(names[tried]);
        }
    }
    DecoderStep::Software(software_decoder(codec))
}

/// The test pictures, and the marks they carry.
pub const PROBE_FRAMES: u64 = 6;

pub const FIRST_REFERENCE: u64 = 123_456_789;

pub const PROBE_WIDTH: u32 = 320;

pub const PROBE_HEIGHT: u32 = 180;

/// The pipeline of the test.
pub open spec fn probe_text(decoder: Seq<char>, format: VideoFormat) -> Seq<char> {
    "videotestsrc num-buffers=6 ! video/x-raw,format="@ + (if format.is_hdr() {
        "I420_10LE,colorimetry=bt2100-pq"@
    } else {
        "I420"@
    }) + ",width=320,height=180,framerate=30/1 ! "@ + synthetic_text(format)
        + " ! identity name=stamp ! "@ + fragment_text(decoder, format.codec) + " ! "@ + output_text(
        format,
    ) + " ! appsink name=probe sync=false max-buffers=6 drop=false"@
}

pub fn probe_description(decoder: &str, format: VideoFormat) -> (r: String)
    ensures
        r@ == probe_text(decoder@, format),
{
    let mut out = String::new();
    out.push_str("videotestsrc num-buffers=6 ! video/x-raw,format=");
    out.push_str(
        if format.hdr() {
            "I420_10LE,colorimetry=bt2100-pq"
        } else {
            "I420"
        },
    );
    out.push_str(",width=320,height=180,framerate=30/1 ! ");
    out.push_str(synthetic_encoder(format));
    out.push_str(" ! identity name=stamp ! ");
    let part = fragment(decoder, format.codec);
    out.push_str(part.as_str());
    out.push_str(" ! ");
    out.push_str(output_fragment(format));
    out.push_str(" ! appsink name=probe sync=false max-buffers=6 drop=false");
    assert(out@ =~= probe_text(decoder@, format));
    out
}

/// A picture that came out of the decoder under test.
pub struct ProbedFrame {
    pub rgb: bool,
    pub width: u32,
    pub height: u32,
    /// The mark that it carries.
    pub reference: Option<u64>,
    /// How many bytes could be read.
    pub mapped: usize,
}

/// The marks that were seen.
pub struct Probe {
    pub references: BTreeSet<u64>,
}

pub open spec fn in_range(reference: u64) -> bool {
    FIRST_REFERENCE <= reference < FIRST_REFERENCE + PROBE_FRAMES
}

impl Probe {
    pub open spec fn seen(&self) -> Set<u64> {
        self.references@
    }

    /// Only marks that were given out are there.
    pub open spec fn wf(&self) -> bool {
        self.seen().finite() && forall|r: u64| #[trigger] self.seen().contains(r) ==> in_range(r)
    }

    pub fn new() -> (r: Self)
        ensures
            r.seen() == Set::<u64>::empty(),
            r.wf(),
    {
        Probe { references: BTreeSet::new() }
    }

    /// The picture has the size and the layout that were asked for.
    pub open spec fn layout_valid(frame: ProbedFrame, hdr: bool) -> bool {
        (hdr || frame.rgb) && frame.width == PROBE_WIDTH && frame.height == PROBE_HEIGHT
    }

    pub open spec fn identity_valid(&self, frame: ProbedFrame) -> bool {
        frame.reference is Some && in_range(frame.reference->0) && !self.seen().contains(
            frame.reference->0,
        )
    }

    /// What a picture says of the decoder.
    pub open spec fn judged(
        self,
        frame: ProbedFrame,
        hdr: bool,
        require_identity: bool,
        after: Probe,
        r: Result<(), Error>,
    ) -> bool {
        &&& r is Ok <==> Self::layout_valid(frame, hdr) && (require_identity
            ==> self.identity_valid(frame)) && frame.mapped >= 172_800
        &&& after.seen() == if require_identity && Self::layout_valid(frame, hdr)
            && self.identity_valid(frame) {
            self.seen().insert(frame.reference->0)
        } else {
            self.seen()
        }
        &&& r is Ok && require_identity ==> after.seen().len() == self.seen().len() + 1
        &&& r matches Err(e) ==> e == if !hdr && !frame.rgb {
            Error::ProbeRgb
        } else if !Self::layout_valid(frame, hdr) {
            Error::ProbeSize
        } else if require_identity && frame.reference is None {
            Error::ProbeIdentity
        } else if require_identity && !self.identity_valid(frame) {
            Error::ProbeReference
        } else {
            Error::ProbeIncomplete
        }
    }

    /// A picture comes out of the decoder. Where identity is required, its mark must
    /// be one that was given out and was not seen before.
    pub fn accept(&mut self, frame: &ProbedFrame, hdr: bool, require_identity: bool) -> (r: Result<
        (),
        Error,
    >)
        requires
            old(self).wf(),
        ensures
            final(self).wf(),
            old(self).judged(*frame, hdr, require_identity, *final(self), r),
    {
        if !hdr && !frame.rgb {
            return Err(Error::ProbeRgb);
        }
        if !(frame.width == PROBE_WIDTH && frame.height == PROBE_HEIGHT) {
            return Err(Error::ProbeSize);
        }
        if require_identity {
            match frame.reference {
                None => return Err(Error::ProbeIdentity),
                Some(reference) => {
                    if !(FIRST_REFERENCE <= reference && reference < FIRST_REFERENCE
                        + PROBE_FRAMES) {
                        return Err(Error::ProbeReference);
                    }
                    if !self.references.insert(reference) {
                        assert(self.seen() =~= old(self).seen());
                        return Err(Error::ProbeReference);
                    }
                },
            }
        }
        if frame.mapped < 172_800 {
            return Err(Error::ProbeIncomplete);
        }
        Ok(())
    }
}

/// A decoder that gave six pictures gave each of the six that went in, once.
pub proof fn all_pictures_came_out(probe: Probe, reference: u64)
    requires
        probe.wf(),
        probe.seen().len() == PROBE_FRAMES,
        in_range(reference),
    ensures
        probe.seen().contains(reference),
{
    if !probe.seen().contains(reference) {
        lists::range_bounds_size(
            probe.seen().insert(reference),
            FIRST_REFERENCE as int,
            PROBE_FRAMES as int,
        );
    }
}

} // verus!
