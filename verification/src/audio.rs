//! Desktop audio, where the user has chosen a monitor to record. Each packet of ten
//! milliseconds is a group of its own, so that stale audio is never played.
use crate::error::Error;
use crate::media::newer;
use crate::text;
use vstd::prelude::*;

verus! {

/// The most bytes that wait for the decoder.
pub const MAX_QUEUED: u64 = 65536;

/// The largest packet.
pub const MAX_PACKET: usize = 4096;

/// The length of a packet in nanoseconds.
pub const PACKET_DURATION: u64 = 10_000_000;

/// Characters in the name of an audio source.
pub open spec fn source_char(c: char) -> bool {
    text::alphanumeric(c) || c == '.' || c == '_' || c == '-' || c == ':'
}

/// The name of the monitor of an output. It holds nothing that the description of a
/// pipeline could mistake for more than a name.
pub open spec fn monitor_name(source: Seq<char>) -> bool {
    text::has_suffix(source, ".monitor"@) && source.len() <= 512 && forall|i: int|
        0 <= i < source.len() ==> source_char(#[trigger] source[i])
}

fn all_source_chars(source: &str) -> (r: bool)
    ensures
        r <==> forall|i: int| 0 <= i < source@.len() ==> source_char(#[trigger] source@[i]),
{
    let n: usize = source.unicode_len();
    let mut i: usize = 0;
    while i < n
        invariant
            n == source@.len(),
            i <= n,
            forall|j: int| 0 <= j < i ==> source_char(#[trigger] source@[j]),
        decreases n - i,
    {
        let c = source.get_char(i);
        if !(text::is_alphanumeric(c) || c == '.' || c == '_' || c == '-' || c == ':') {
            return false;
        }
        i += 1;
    }
    true
}

/// The description of a recording from this source.
pub open spec fn described(source: Seq<char>, r: Result<String, Error>) -> bool {
    &&& r is Ok <==> source == "test"@ || monitor_name(source)
    &&& r matches Ok(description) ==> description@ == if source == "test"@ {
        "audiotestsrc is-live=true wave=sine volume=0.05"@
    } else {
        "pulsesrc device="@ + source
            + " provide-clock=false buffer-time=20000 latency-time=10000"@
    }
    &&& r matches Err(e) ==> e == Error::AudioSource
}

/// The source of a recording. A microphone is never recorded, and a name is nothing
/// but a name.
pub fn capture_description(source: &str) -> (r: Result<String, Error>)
    ensures
        described(source@, r),
{
    if text::same(source, "test") {
        return Ok("audiotestsrc is-live=true wave=sine volume=0.05".to_string());
    }
    if !(text::ends_with(source, ".monitor") && source.unicode_len() <= 512 && all_source_chars(
        source,
    )) {
        return Err(Error::AudioSource);
    }
    let mut out = String::new();
    out.push_str("pulsesrc device=");
    out.push_str(source);
    out.push_str(" provide-clock=false buffer-time=20000 latency-time=10000");
    assert(out@ =~= "pulsesrc device="@ + source@
        + " provide-clock=false buffer-time=20000 latency-time=10000"@);
    Ok(out)
}

pub const ENCODE: &'static str =
    " ! audioconvert ! audioresample ! audio/x-raw,rate=48000,channels=2 ! opusenc bitrate=128000 frame-size=10 audio-type=restricted-lowdelay ! appsink name=encoded_audio sync=false max-buffers=4 drop=false";

/// The pipeline that records from a source and encodes.
pub fn encoder_description(source: &str) -> (r: String)
    ensures
        r@ == source@ + ENCODE@,
{
    let mut out = String::new();
    out.push_str(source);
    out.push_str(ENCODE);
    assert(out@ =~= source@ + ENCODE@);
    out
}

pub const DECODE: &'static str =
    "appsrc name=audio_in is-live=true format=time do-timestamp=true max-bytes=65536 block=false caps=audio/x-opus,rate=48000,channels=2,channel-mapping-family=0 ! opusdec ! audioconvert ! audioresample ! volume name=audio_volume ! queue max-size-time=100000000 max-size-buffers=0 max-size-bytes=0 leaky=downstream ! ";

/// Where decoded audio goes: to the user's output, or nowhere but a counter.
pub const OUTPUT: &'static str = "autoaudiosink";

pub const COUNTED: &'static str = "appsink name=audio_pcm sync=false max-buffers=4 drop=true";

/// The pipeline that decodes.
pub fn decoder_description(sink: &str) -> (r: String)
    ensures
        r@ == DECODE@ + sink@,
{
    let mut out = String::new();
    out.push_str(DECODE);
    out.push_str(sink);
    assert(out@ =~= DECODE@ + sink@);
    out
}

/// The packets that are being received.
pub struct AudioReceiver {
    /// The newest group that was begun, and whether it is open.
    pub sequence: Option<u64>,
    pub current: bool,
}

impl AudioReceiver {
    pub fn new() -> (r: Self)
        ensures
            r.sequence is None,
            !r.current,
    {
        AudioReceiver { sequence: None, current: false }
    }

    /// A packet that comes after a newer one is stale.
    pub fn is_newer(&self, sequence: u64) -> (r: bool)
        ensures
            r == newer(self.sequence, sequence),
    {
        match self.sequence {
            Some(previous) => sequence > previous,
            None => true,
        }
    }

    /// A newer group begins.
    pub fn begin(&mut self, next: u64)
        ensures
            final(self).sequence == Some(next),
            final(self).current,
    {
        self.sequence = Some(next);
        self.current = true;
    }

    /// The only packet of the open group has come, or has been lost. Returns whether
    /// it goes to the decoder, which holds this many bytes.
    pub fn packet(&mut self, received: bool, queued: u64) -> (r: Result<bool, Error>)
        ensures
            r is Ok <==> !received || queued < MAX_QUEUED,
            r matches Ok(play) ==> play == received,
            r matches Err(e) ==> e == Error::AudioBehind,
            *final(self) == (AudioReceiver { current: false, ..*old(self) }),
    {
        self.current = false;
        if !received {
            return Ok(false);
        }
        if queued >= MAX_QUEUED {
            return Err(Error::AudioBehind);
        }
        Ok(true)
    }
}

/// Nothing but one name gets into a recording's description: there is no space, no
/// quote and no exclamation mark in it.
pub proof fn names_stay_names(source: Seq<char>, i: int)
    requires
        monitor_name(source),
        0 <= i < source.len(),
    ensures
        source[i] != ' ',
        source[i] != '!',
        source[i] != '"',
        source[i] != '\'',
        source[i] != '\n',
{
    assert(source_char(source[i]));
}

} // verus!
