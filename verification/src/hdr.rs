//! Diagnostics of HDR encoding and decoding, on synthetic pictures only: no
//! desktop is captured for them.
use crate::error::Error;
use crate::text;
use vstd::prelude::*;

verus! {

/// An encoder to try, the format it takes and its settings.
#[derive(Clone, Copy)]
pub struct Encoder {
    pub name: &'static str,
    pub format: &'static str,
    pub settings: &'static str,
}

pub const NVIDIA_SETTINGS: &'static str = "bitrate=2000 gop-size=15 bframes=0 zerolatency=true";

pub const VAAPI_SETTINGS: &'static str = "bitrate=2000 key-int-max=15 b-frames=0";

pub const SOFTWARE_SETTINGS: &'static str =
    "bitrate=2000 key-int-max=15 tune=zerolatency speed-preset=ultrafast option-string=pools=1:frame-threads=1:log-level=error";

/// The encoder at this place.
pub open spec fn offered(index: usize, r: Option<Encoder>) -> bool {
    &&& r is Some <==> index < 3
    &&& r matches Some(e) ==> e.name@ == seq!["nvh265enc"@, "vah265enc"@, "x265enc"@][index as int]
        && e.format@ == seq!["P010_10LE"@, "P010_10LE"@, "I420_10LE"@][index as int]
        && e.settings@ == seq![
        NVIDIA_SETTINGS@,
        VAAPI_SETTINGS@,
        SOFTWARE_SETTINGS@,
    ][index as int]
}

/// The encoders, in the order in which they are tried.
pub fn encoder(index: usize) -> (r: Option<Encoder>)
    ensures
        offered(index, r),
{
    if index == 0 {
        Some(Encoder { name: "nvh265enc", format: "P010_10LE", settings: NVIDIA_SETTINGS })
    } else if index == 1 {
        Some(Encoder { name: "vah265enc", format: "P010_10LE", settings: VAAPI_SETTINGS })
    } else if index == 2 {
        Some(Encoder { name: "x265enc", format: "I420_10LE", settings: SOFTWARE_SETTINGS })
    } else {
        None
    }
}

/// The decoder to try them with: the hardware's on a Mac that has it.
pub fn decoder(macos: bool, installed: bool) -> (r: &'static str)
    ensures
        r@ == if macos && installed {
            "vtdec_hw"@
        } else {
            "avdec_h265"@
        },
{
    if macos && installed {
        "vtdec_hw"
    } else {
        "avdec_h265"
    }
}

/// How brightness is coded, as far as it matters.
#[derive(Clone, Copy, PartialEq, Eq, Structural, Debug)]
pub enum Transfer {
    /// SMPTE ST 2084, "PQ".
    Smpte2084,
    Other,
}

#[derive(Clone, Copy, PartialEq, Eq, Structural, Debug)]
pub enum Primaries {
    Bt2020,
    Other,
}

/// What the decoder says of a picture.
pub struct FrameInfo {
    pub width: u32,
    pub height: u32,
    /// The name of the pixel format and of the colour space.
    pub format: String,
    pub colorimetry: String,
    /// The bits of the first component, where there is one.
    pub depth: Option<u32>,
    pub transfer: Transfer,
    pub primaries: Primaries,
    /// The bytes of the picture, where it has any.
    pub buffer: Option<usize>,
}

impl FrameInfo {
    pub open spec fn bits(self) -> u32 {
        match self.depth {
            Some(depth) => depth,
            None => 0,
        }
    }

    pub open spec fn precise(self) -> bool {
        self.bits() >= 10
    }

    pub open spec fn filled(self) -> bool {
        self.buffer is Some && self.buffer->0 > 0
    }
}

/// What is said of a picture, or what is wrong with it.
pub open spec fn inspected(info: FrameInfo, r: Result<String, Error>) -> bool {
    &&& r is Ok <==> info.precise() && info.transfer == Transfer::Smpte2084 && info.primaries
        == Primaries::Bt2020 && info.filled()
    &&& r matches Ok(line) ==> line@ == text::decimal(info.width as nat) + "x"@ + text::decimal(
        info.height as nat,
    ) + ", "@ + info.format@ + ", "@ + text::decimal(info.bits() as nat) + "-bit, "@
        + info.colorimetry@
    &&& r matches Err(e) ==> e == if !info.precise() {
        Error::ReducedPrecision
    } else if info.transfer != Transfer::Smpte2084 {
        Error::LostTransfer
    } else if info.primaries != Primaries::Bt2020 {
        Error::LostPrimaries
    } else if info.buffer is None {
        Error::NoFrameBuffer
    } else {
        Error::EmptyFrameBuffer
    }
}

/// Precision and colour must both have survived, and there must be a picture.
pub fn inspect_frame(info: &FrameInfo) -> (r: Result<String, Error>)
    ensures
        inspected(*info, r),
{
    let depth: u32 = match info.depth {
        Some(depth) => depth,
        None => 0,
    };
    if depth < 10 {
        return Err(Error::ReducedPrecision);
    }
    if info.transfer != Transfer::Smpte2084 {
        return Err(Error::LostTransfer);
    }
    if info.primaries != Primaries::Bt2020 {
        return Err(Error::LostPrimaries);
    }
    match info.buffer {
        None => return Err(Error::NoFrameBuffer),
        Some(size) => {
            if size == 0 {
                return Err(Error::EmptyFrameBuffer);
            }
        },
    }
    let mut line = String::new();
    text::push_decimal(&mut line, info.width as u64);
    line.push_str("x");
    text::push_decimal(&mut line, info.height as u64);
    line.push_str(", ");
    line.push_str(info.format.as_str());
    line.push_str(", ");
    text::push_decimal(&mut line, depth as u64);
    line.push_str("-bit, ");
    line.push_str(info.colorimetry.as_str());
    assert(line@ =~= text::decimal(info.width as nat) + "x"@ + text::decimal(info.height as nat)
        + ", "@ + info.format@ + ", "@ + text::decimal(info.bits() as nat) + "-bit, "@
        + info.colorimetry@);
    Ok(line)
}

/// The pipeline that encodes and decodes six test pictures. That they are marked as
/// PQ says nothing about any desktop or display.
pub open spec fn probe_text(encoder: Encoder, decoder: Seq<char>) -> Seq<char> {
    "videotestsrc num-buffers=6 pattern=gradient ! video/x-raw,format="@ + encoder.format@
        + ",width=320,height=180,framerate=30/1,colorimetry=bt2100-pq ! "@ + encoder.name@ + " "@
        + encoder.settings@ + " ! h265parse name=parsed ! video/x-h265,profile=main-10 ! "@
        + decoder + " ! appsink name=decoded sync=false max-buffers=6 drop=false"@
}

pub fn probe_description(encoder: &Encoder, decoder: &str) -> (r: String)
    ensures
        r@ == probe_text(*encoder, decoder@),
{
    let mut out = String::new();
    out.push_str("videotestsrc num-buffers=6 pattern=gradient ! video/x-raw,format=");
    out.push_str(encoder.format);
    out.push_str(",width=320,height=180,framerate=30/1,colorimetry=bt2100-pq ! ");
    out.push_str(encoder.name);
    out.push_str(" ");
    out.push_str(encoder.settings);
    out.push_str(" ! h265parse name=parsed ! video/x-h265,profile=main-10 ! ");
    out.push_str(decoder);
    out.push_str(" ! appsink name=decoded sync=false max-buffers=6 drop=false");
    assert(out@ =~= probe_text(*encoder, decoder@));
    out
}

/// What an encoder made must be HEVC Main 10.
pub fn check_profile(profile: &str) -> (r: Result<(), Error>)
    ensures
        r is Ok <==> profile@ == "main-10"@,
        r matches Err(e) ==> e == Error::NotMain10,
{
    if text::same(profile, "main-10") {
        Ok(())
    } else {
        Err(Error::NotMain10)
    }
}

/// What became of one encoder.
pub enum Finding {
    /// The encoder is not installed.
    NoEncoder,
    /// The decoder is not installed.
    NoDecoder,
    Passed { description: String },
    Failed { message: String },
}

/// What is said of an encoder, and whether it passed.
pub open spec fn reported(
    encoder: Seq<char>,
    decoder: Seq<char>,
    finding: Finding,
    r: (String, bool),
) -> bool {
    &&& r.1 == (finding is Passed)
    &&& r.0@ == match finding {
        Finding::NoEncoder => encoder + ": unavailable (plugin/device)"@,
        Finding::NoDecoder => encoder + ": untested; "@ + decoder + " unavailable"@,
        Finding::Passed { description } => encoder + " -> "@ + decoder + ": PASS ("@
            + description@ + ")"@,
        Finding::Failed { message } => encoder + " -> "@ + decoder + ": FAIL ("@ + message@
            + ")"@,
    }
}

/// The line that reports on one encoder, and whether it counts as a pass. Missing
/// hardware is a fact, not a failure.
pub fn report(encoder: &str, decoder: &str, finding: &Finding) -> (r: (String, bool))
    ensures
        reported(encoder@, decoder@, *finding, r),
{
    let mut line = String::new();
    line.push_str(encoder);
    match finding {
        Finding::NoEncoder => {
            line.push_str(": unavailable (plugin/device)");
            assert(line@ =~= encoder@ + ": unavailable (plugin/device)"@);
            (line, false)
        },
        Finding::NoDecoder => {
            line.push_str(": untested; ");
            line.push_str(decoder);
            line.push_str(" unavailable");
            assert(line@ =~= encoder@ + ": untested; "@ + decoder@ + " unavailable"@);
            (line, false)
        },
        Finding::Passed { description } => {
            line.push_str(" -> ");
            line.push_str(decoder);
            line.push_str(": PASS (");
            line.push_str(description.as_str());
            line.push_str(")");
            assert(line@ =~= encoder@ + " -> "@ + decoder@ + ": PASS ("@ + description@ + ")"@);
            (line, true)
        },
        Finding::Failed { message } => {
            line.push_str(" -> ");
            line.push_str(decoder);
            line.push_str(": FAIL (");
            line.push_str(message.as_str());
            line.push_str(")");
            assert(line@ =~= encoder@ + " -> "@ + decoder@ + ": FAIL ("@ + message@ + ")"@);
            (line, false)
        },
    }
}

} // verus!
