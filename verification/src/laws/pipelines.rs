//! Pipelines in words: what was asked for stands in the description, at the option
//! that it is for.
use crate::capture::{Backend, Capture};
use crate::clipboard::helper;
use crate::decoder::{
    candidate_names, chosen, fragment_text, in_range, media_type, output_text, parsed_caps,
    parser_name, software_name, synthetic_text, DecoderStep, Probe, ProbedFrame, VideoFormat,
};
use crate::audio::described;
use crate::error::Error;
use crate::hdr::{inspected, offered, reported, Encoder, Finding, FrameInfo, Primaries, Transfer};
use crate::media::{
    clear, congested, decoder_text, encoder_text, gop_of, newer, sampled, saturated, selection,
    sized, told_ms, BitrateController, EncoderKind, EncoderStep, MediaInput, MediaReadView,
    VideoReceiver,
};
use crate::protocol::{DynamicRange, VideoCodec};
use crate::text::{decimal, digit, has_part, has_prefix, has_suffix, occurs_at};
use vstd::prelude::*;

verus! {

/// A text with an option and its number in the middle.
pub open spec fn said(before: Seq<char>, option: Seq<char>, value: nat, after: Seq<char>) -> Seq<
    char,
> {
    before + option + decimal(value) + after
}

/// The text gives this number for the option: the option stands at the beginning of a
/// word, and the number ends where it should.
pub open spec fn says(chars: Seq<char>, option: Seq<char>, value: nat) -> bool {
    exists|before: Seq<char>, after: Seq<char>|
        {
            &&& chars == #[trigger] said(before, option, value, after)
            &&& before.len() > 0 && (before.last() == ' ' || before.last() == ',')
            &&& after.len() == 0 || !digit(after[0])
        }
}

/// The key frames are a quarter of a second apart, and one frame at least.
pub proof fn key_frames_come_four_times_a_second(fps: u32)
    ensures
        fps >= 4 ==> 4 * gop_of(fps) <= fps < 4 * gop_of(fps) + 4,
        fps < 4 ==> gop_of(fps) == 1,
{
}

/// Every encoder is told the rate that was asked for, and how far key frames are apart.
pub proof fn encoders_are_told_rate_and_distance(kind: EncoderKind, fps: u32, bitrate: u32)
    ensures
        says(encoder_text(kind, fps, bitrate), "bitrate="@, bitrate as nat),
        kind != EncoderKind::Nvidia ==> says(
            encoder_text(kind, fps, bitrate),
            "key-int-max="@,
            if fps < 8 {
                1
            } else {
                (fps / 4) as nat
            },
        ),
        kind == EncoderKind::Nvidia ==> says(
            encoder_text(kind, fps, bitrate),
            "gop-size="@,
            if fps < 8 {
                1
            } else {
                (fps / 4) as nat
            },
        ),
        has_prefix(
            encoder_text(kind, fps, bitrate),
            match kind {
                EncoderKind::Vaapi => "vah264enc name=video_encoder "@,
                EncoderKind::Nvidia => "nvh264enc name=video_encoder "@,
                _ => "x264enc name=video_encoder "@,
            },
        ),
{
    reveal_strlit("bitrate=");
    reveal_strlit("key-int-max=");
    reveal_strlit("gop-size=");
    reveal_strlit("vah264enc name=video_encoder ");
    reveal_strlit("nvh264enc name=video_encoder ");
    reveal_strlit("x264enc name=video_encoder ");
    reveal_strlit("x264enc name=video_encoder tune=zerolatency speed-preset=ultrafast ");
    reveal_strlit(
        "x264enc name=video_encoder tune=zerolatency speed-preset=ultrafast bitrate=",
    );
    reveal_strlit(" key-int-max=");
    reveal_strlit(" bframes=0 threads=4 ! video/x-h264,profile=constrained-baseline");
    reveal_strlit("vah264enc name=video_encoder bitrate=");
    reveal_strlit(" b-frames=0 rate-control=cbr");
    reveal_strlit("nvh264enc name=video_encoder bitrate=");
    reveal_strlit(" gop-size=");
    reveal_strlit(" bframes=0 zerolatency=true rc-mode=cbr");
    reveal_strlit(" ");
    let all = encoder_text(kind, fps, bitrate);
    let gop: nat = if fps < 8 {
        1
    } else {
        (fps / 4) as nat
    };
    assert(gop == gop_of(fps));
    let rate = decimal(bitrate as nat);
    let distance = decimal(gop);
    let (head, option, end) = match kind {
        EncoderKind::Vaapi => (
            "vah264enc name=video_encoder "@,
            "key-int-max="@,
            " b-frames=0 rate-control=cbr"@,
        ),
        EncoderKind::Nvidia => (
            "nvh264enc name=video_encoder "@,
            "gop-size="@,
            " bframes=0 zerolatency=true rc-mode=cbr"@,
        ),
        _ => (
            "x264enc name=video_encoder tune=zerolatency speed-preset=ultrafast "@,
            "key-int-max="@,
            " bframes=0 threads=4 ! video/x-h264,profile=constrained-baseline"@,
        ),
    };
    assert(" "@ =~= seq![' ']);
    let tail = " "@ + option + distance + end;
    assert(all =~= said(head, "bitrate="@, bitrate as nat, tail));
    let front = head + "bitrate="@ + rate + " "@;
    assert(all =~= said(front, option, gop, end));
    assert(front.last() == ' ');
    let name = match kind {
        EncoderKind::Vaapi => "vah264enc name=video_encoder "@,
        EncoderKind::Nvidia => "nvh264enc name=video_encoder "@,
        _ => "x264enc name=video_encoder "@,
    };
    assert(head.take(name.len() as int) =~= name);
    assert(all.take(name.len() as int) =~= name);
}

/// A pipeline has the width, the height and the rate of pictures that were asked for,
/// and the whole of the encoder's part.
pub proof fn pipelines_have_the_size(
    start: Seq<char>,
    width: u32,
    height: u32,
    fps: u32,
    kind: EncoderKind,
    bitrate: u32,
    end: Seq<char>,
)
    requires
        has_suffix(start, ",width="@),
    ensures
        ({
            let all = sized(start, width, height, fps, kind, bitrate, end);
            &&& says(all, "width="@, width as nat)
            &&& says(all, "height="@, height as nat)
            &&& says(all, "framerate="@, fps as nat)
            &&& has_part(all, " ! "@ + encoder_text(kind, fps, bitrate))
            &&& has_prefix(all, start)
            &&& has_suffix(all, encoder_text(kind, fps, bitrate) + end)
        }),
{
    reveal_strlit(",width=");
    reveal_strlit("width=");
    reveal_strlit(",height=");
    reveal_strlit("height=");
    reveal_strlit(",framerate=");
    reveal_strlit("framerate=");
    reveal_strlit("/1 ! ");
    reveal_strlit(" ! ");
    let all = sized(start, width, height, fps, kind, bitrate, end);
    let w = decimal(width as nat);
    let h = decimal(height as nat);
    let f = decimal(fps as nat);
    let e = encoder_text(kind, fps, bitrate);
    let head = start.take(start.len() - 7).push(',');
    assert(start =~= start.take(start.len() - 7) + start.skip(start.len() - 7));
    assert(start =~= head + "width="@);
    let after_width = ",height="@ + h + ",framerate="@ + f + "/1 ! "@ + e + end;
    assert(all =~= said(head, "width="@, width as nat, after_width));
    let before_height = start + w + seq![','];
    let after_height = ",framerate="@ + f + "/1 ! "@ + e + end;
    assert(",height="@ =~= seq![','] + "height="@);
    assert(all =~= said(before_height, "height="@, height as nat, after_height));
    let before_rate = start + w + ",height="@ + h + seq![','];
    let after_rate = "/1 ! "@ + e + end;
    assert(",framerate="@ =~= seq![','] + "framerate="@);
    assert(all =~= said(before_rate, "framerate="@, fps as nat, after_rate));
    assert("/1 ! "@ =~= seq!['/', '1'] + " ! "@);
    let front = start + w + ",height="@ + h + ",framerate="@ + f + seq!['/', '1'];
    assert(all =~= front + (" ! "@ + e) + end);
    assert(all.subrange(front.len() as int, (front.len() + 3 + e.len()) as int) =~= " ! "@ + e);
    assert(occurs_at(all, " ! "@ + e, front.len() as int));
    assert(all.take(start.len() as int) =~= start);
    assert(all =~= (front + " ! "@) + (e + end));
    assert(all.skip(all.len() - (e + end).len()) =~= e + end);
}

/// The portal's stream is read from its descriptor and its node.
pub proof fn the_portal_is_read_from_its_node(fd: i32, node: u32)
    requires
        fd >= 0,
    ensures
        says(Capture::source_text(Backend::Portal { fd, node }), "fd="@, fd as nat),
        says(Capture::source_text(Backend::Portal { fd, node }), "path="@, node as nat),
        has_prefix(Capture::source_text(Backend::Portal { fd, node }), "pipewiresrc "@),
        has_prefix(Capture::source_text(Backend::X11), "ximagesrc "@),
        has_prefix(Capture::source_text(Backend::Test), "videotestsrc "@),
{
    reveal_strlit("pipewiresrc fd=");
    reveal_strlit("pipewiresrc ");
    reveal_strlit("fd=");
    reveal_strlit(" path=");
    reveal_strlit("path=");
    reveal_strlit(" do-timestamp=true ! video/x-raw");
    reveal_strlit("ximagesrc ");
    reveal_strlit("ximagesrc use-damage=false show-pointer=true");
    reveal_strlit("videotestsrc ");
    reveal_strlit("videotestsrc is-live=true pattern=ball");
    let all = Capture::source_text(Backend::Portal { fd, node });
    let rest = " path="@ + decimal(node as nat) + " do-timestamp=true ! video/x-raw"@;
    assert(all =~= said("pipewiresrc "@, "fd="@, fd as nat, rest));
    let front = "pipewiresrc fd="@ + decimal(fd as nat) + seq![' '];
    assert(all =~= said(front, "path="@, node as nat, " do-timestamp=true ! video/x-raw"@));
    assert(all.take(12) =~= "pipewiresrc "@);
    assert(Capture::source_text(Backend::X11).take(10) =~= "ximagesrc "@);
    assert(Capture::source_text(Backend::Test).take(13) =~= "videotestsrc "@);
}

/// Tracks, parsers, media types and decoders bear the name of their codec.
pub proof fn everything_bears_the_name_of_its_codec(codec: VideoCodec, i: int)
    ensures
        codec.track_name() == match codec {
            VideoCodec::H264 => "h264"@,
            VideoCodec::H265 => "h265"@,
        },
        parser_name(codec) == codec.track_name() + "parse"@,
        media_type(codec) == "video/x-"@ + codec.track_name(),
        software_name(codec) == "avdec_"@ + codec.track_name(),
        candidate_names(codec, false).len() == 3,
        candidate_names(codec, false)[0] == "nv"@ + codec.track_name() + "dec"@,
        candidate_names(codec, false)[1] == "va"@ + codec.track_name() + "dec"@,
        candidate_names(codec, false)[2] == "qsv"@ + codec.track_name() + "dec"@,
        candidate_names(codec, true) == seq!["vtdec_hw"@],
{
    reveal_strlit("h264");
    reveal_strlit("h265");
    reveal_strlit("parse");
    reveal_strlit("h264parse");
    reveal_strlit("h265parse");
    reveal_strlit("video/x-");
    reveal_strlit("video/x-h264");
    reveal_strlit("video/x-h265");
    reveal_strlit("avdec_");
    reveal_strlit("avdec_h264");
    reveal_strlit("avdec_h265");
    reveal_strlit("nv");
    reveal_strlit("va");
    reveal_strlit("qsv");
    reveal_strlit("dec");
    reveal_strlit("nvh264dec");
    reveal_strlit("nvh265dec");
    reveal_strlit("vah264dec");
    reveal_strlit("vah265dec");
    reveal_strlit("qsvh264dec");
    reveal_strlit("qsvh265dec");
    assert(parser_name(codec) =~= codec.track_name() + "parse"@);
    assert(media_type(codec) =~= "video/x-"@ + codec.track_name());
    assert(software_name(codec) =~= "avdec_"@ + codec.track_name());
    assert(candidate_names(codec, false)[0] =~= "nv"@ + codec.track_name() + "dec"@);
    assert(candidate_names(codec, false)[1] =~= "va"@ + codec.track_name() + "dec"@);
    assert(candidate_names(codec, false)[2] =~= "qsv"@ + codec.track_name() + "dec"@);
}

/// A decoder's part of a pipeline begins with the parser of the codec, has the decoder
/// that was chosen under the name by which it is found again, and ends in plain pictures.
pub proof fn the_decoder_stands_in_its_pipeline(decoder: Seq<char>, codec: VideoCodec)
    ensures
        has_prefix(fragment_text(decoder, codec), parser_name(codec)),
        has_part(fragment_text(decoder, codec), " ! "@ + decoder + " name=video_decoder"@),
        has_suffix(fragment_text(decoder, codec), " ! video/x-raw"@),
        decoder == "vtdec_hw"@ ==> has_part(
            fragment_text(decoder, codec),
            media_type(codec) + ",stream-format="@ + (match codec {
                VideoCodec::H264 => "avc"@,
                VideoCodec::H265 => "hvc1"@,
            }),
        ),
{
    let all = fragment_text(decoder, codec);
    let p = parser_name(codec);
    let c = parsed_caps(decoder, codec);
    let o = crate::decoder::decoder_options(decoder);
    let named = " ! "@ + decoder + " name=video_decoder"@;
    let end = " ! video/x-raw"@;
    assert(all =~= p + (c + named + o + end));
    assert(all.take(p.len() as int) =~= p);
    let front = p + c;
    assert(all =~= front + named + (o + end));
    assert(all.subrange(front.len() as int, (front.len() + named.len()) as int) =~= named);
    assert(occurs_at(all, named, front.len() as int));
    assert(all =~= (p + c + named + o) + end);
    assert(all.skip(all.len() - end.len()) =~= end);
    if decoder == "vtdec_hw"@ {
        let format = media_type(codec) + ",stream-format="@ + (match codec {
            VideoCodec::H264 => "avc"@,
            VideoCodec::H265 => "hvc1"@,
        });
        let start = p + " ! "@;
        let rest = ",alignment=au"@ + named + o + end;
        assert(all =~= start + format + rest);
        assert(all.subrange(start.len() as int, (start.len() + format.len()) as int) =~= format);
        assert(occurs_at(all, format, start.len() as int));
    }
}

/// The pictures that a decoder is tried with are of its format: ten bits and their
/// transfer for HDR, eight bits of the codec otherwise; and so is what must come out.
pub proof fn decoders_are_tried_with_their_format(format: VideoFormat)
    ensures
        format.is_hdr() <==> format.dynamic_range == DynamicRange::Hdr10,
        has_suffix(
            synthetic_text(format),
            if format.dynamic_range == DynamicRange::Hdr10 {
                "video/x-h265,profile=main-10"@
            } else {
                match format.codec {
                    VideoCodec::H264 => "video/x-h264,profile=constrained-baseline"@,
                    VideoCodec::H265 => "video/x-h265,profile=main"@,
                }
            },
        ),
        has_prefix(
            synthetic_text(format),
            if format.dynamic_range == DynamicRange::Sdr && format.codec == VideoCodec::H264 {
                "x264enc "@
            } else {
                "x265enc "@
            },
        ),
        has_prefix(
            output_text(format),
            if format.dynamic_range == DynamicRange::Hdr10 {
                "capsfilter name=hdr_decoded "@
            } else {
                "videoconvert ! video/x-raw,format=RGB,"@
            },
        ),
{
    reveal_strlit("video/x-h265,profile=main-10");
    reveal_strlit("video/x-h264,profile=constrained-baseline");
    reveal_strlit("video/x-h265,profile=main");
    reveal_strlit("x264enc ");
    reveal_strlit("x265enc ");
    reveal_strlit("capsfilter name=hdr_decoded ");
    reveal_strlit("videoconvert ! video/x-raw,format=RGB,");
    reveal_strlit(
        "x265enc tune=zerolatency speed-preset=ultrafast option-string=pools=1:frame-threads=1:log-level=error ! video/x-h265,profile=main-10",
    );
    reveal_strlit(
        "x264enc tune=zerolatency speed-preset=ultrafast bframes=0 threads=2 ! video/x-h264,profile=constrained-baseline",
    );
    reveal_strlit(
        "x265enc tune=zerolatency speed-preset=ultrafast option-string=pools=1:frame-threads=1:log-level=error ! video/x-h265,profile=main",
    );
    reveal_strlit(
        "capsfilter name=hdr_decoded caps=\"video/x-raw,format=(string){P010_10LE,I420_10LE,AYUV64},colorimetry=bt2100-pq;video/x-raw,format=(string){ARGB64_BE,RGBA64_LE},colorimetry=1:1:14:7\" ! videoconvert ! video/x-raw,format=P010_10LE,colorimetry=bt2100-pq,chroma-site=jpeg,width=[2,7680],height=[2,8192]",
    );
    reveal_strlit("videoconvert ! video/x-raw,format=RGB,width=[2,7680],height=[2,8192]");
    let s = synthetic_text(format);
    let o = output_text(format);
    if format.dynamic_range == DynamicRange::Hdr10 {
        assert(s.skip(s.len() - 28) =~= "video/x-h265,profile=main-10"@);
        assert(o.take(28) =~= "capsfilter name=hdr_decoded "@);
    } else {
        if format.codec == VideoCodec::H264 {
            assert(s.skip(s.len() - 41) =~= "video/x-h264,profile=constrained-baseline"@);
        } else {
            assert(s.skip(s.len() - 25) =~= "video/x-h265,profile=main"@);
        }
        assert(o.take(38) =~= "videoconvert ! video/x-raw,format=RGB,"@);
    }
    if format.dynamic_range == DynamicRange::Sdr && format.codec == VideoCodec::H264 {
        assert(s.take(8) =~= "x264enc "@);
    } else {
        assert(s.take(8) =~= "x265enc "@);
    }
}

/// A decoder's trial holds the pictures of its format, the decoder itself, and what
/// must come out, in this order.
pub proof fn a_trial_runs_through_the_decoder(decoder: Seq<char>, format: VideoFormat)
    ensures
        ({
            let all = crate::decoder::probe_text(decoder, format);
            &&& has_part(
                all,
                synthetic_text(format) + " ! identity name=stamp ! "@ + fragment_text(
                    decoder,
                    format.codec,
                ) + " ! "@ + output_text(format),
            )
            &&& has_suffix(all, " ! appsink name=probe sync=false max-buffers=6 drop=false"@)
        }),
{
    let all = crate::decoder::probe_text(decoder, format);
    let front = "videotestsrc num-buffers=6 ! video/x-raw,format="@ + (if format.is_hdr() {
        "I420_10LE,colorimetry=bt2100-pq"@
    } else {
        "I420"@
    }) + ",width=320,height=180,framerate=30/1 ! "@;
    let part = synthetic_text(format) + " ! identity name=stamp ! "@ + fragment_text(
        decoder,
        format.codec,
    ) + " ! "@ + output_text(format);
    let end = " ! appsink name=probe sync=false max-buffers=6 drop=false"@;
    assert(all =~= front + part + end);
    assert(all.subrange(front.len() as int, (front.len() + part.len()) as int) =~= part);
    assert(occurs_at(all, part, front.len() as int));
    assert(all.skip(all.len() - end.len()) =~= end);
}

/// The marks of the test pictures are six numbers in a row.
pub proof fn six_marks_are_given_out(i: int)
    ensures
        0 <= i < 6 <==> 123_456_789 + i <= u64::MAX && in_range((123_456_789 + i) as u64) && i
            >= -123_456_789,
{
}

/// An encoder for HDR is tried with its own format and settings, and its pictures go to
/// the decoder that was chosen.
pub proof fn an_hdr_encoder_is_tried_with_its_settings(encoder: Encoder, decoder: Seq<char>)
    ensures
        ({
            let all = crate::hdr::probe_text(encoder, decoder);
            &&& has_part(all, "video/x-raw,format="@ + encoder.format@ + ",width=320,height=180"@)
            &&& has_part(all, " ! "@ + encoder.name@ + " "@ + encoder.settings@ + " ! h265parse"@)
            &&& has_part(all, " ! "@ + decoder + " ! appsink name=decoded"@)
        }),
{
    reveal_strlit("videotestsrc num-buffers=6 pattern=gradient ! video/x-raw,format=");
    reveal_strlit("video/x-raw,format=");
    reveal_strlit(",width=320,height=180");
    reveal_strlit(",width=320,height=180,framerate=30/1,colorimetry=bt2100-pq ! ");
    reveal_strlit(" ! ");
    reveal_strlit(" ! h265parse");
    reveal_strlit(" ! h265parse name=parsed ! video/x-h265,profile=main-10 ! ");
    reveal_strlit(" ! appsink name=decoded");
    reveal_strlit(" ! appsink name=decoded sync=false max-buffers=6 drop=false");
    let all = crate::hdr::probe_text(encoder, decoder);
    let start = "videotestsrc num-buffers=6 pattern=gradient ! video/x-raw,format="@;
    let size = ",width=320,height=180,framerate=30/1,colorimetry=bt2100-pq ! "@;
    let parse = " ! h265parse name=parsed ! video/x-h265,profile=main-10 ! "@;
    let end = " ! appsink name=decoded sync=false max-buffers=6 drop=false"@;
    let a = "video/x-raw,format="@ + encoder.format@ + ",width=320,height=180"@;
    let at_a = (start.len() - 19) as int;
    assert(all.subrange(at_a, at_a + a.len()) =~= a);
    assert(occurs_at(all, a, at_a));
    let b = " ! "@ + encoder.name@ + " "@ + encoder.settings@ + " ! h265parse"@;
    let at_b = (start.len() + encoder.format@.len() + size.len() - 3) as int;
    reveal_strlit(" ");
    assert(all.subrange(at_b, at_b + b.len()) =~= b);
    assert(occurs_at(all, b, at_b));
    let c = " ! "@ + decoder + " ! appsink name=decoded"@;
    let at_c = (start.len() + encoder.format@.len() + size.len() + encoder.name@.len() + 1
        + encoder.settings@.len() + parse.len() - 3) as int;
    assert(all.subrange(at_c, at_c + c.len()) =~= c);
    assert(occurs_at(all, c, at_c));
}

/// The helper of a Wayland session is one of its own, and that of the X server is told
/// which way the text goes.
pub proof fn clipboard_helpers_go_the_right_way(write: bool)
    ensures
        helper(true, true).0 == "wl-copy"@,
        helper(true, false).0 == "wl-paste"@,
        helper(false, write).0 == "xclip"@,
        helper(false, true).1 == seq!["-selection"@, "clipboard"@, "-in"@],
        helper(false, false).1 == seq!["-selection"@, "clipboard"@, "-out"@],
        helper(true, true).1 == seq!["--type"@, "text/plain;charset=utf-8"@],
        helper(true, false).1 == seq!["--no-newline"@, "--type"@, "text"@],
{
}

// ------------------------------------------------------------------------ rates

/// The rate falls to three quarters, rounded down, and not below five hundred or the
/// ceiling.
pub proof fn congestion_takes_a_quarter(controller: BitrateController)
    requires
        controller.wf(),
        controller.current <= 1_000_000_000,
    ensures
        controller.reduced() <= controller.current,
        controller.current * 3 >= 2000 && controller.ceiling >= 500 ==> 4 * controller.reduced()
            <= 3 * controller.current < 4 * controller.reduced() + 4,
        controller.current * 3 < 2000 && controller.ceiling >= 500 ==> controller.reduced() == 500,
        controller.ceiling < 500 ==> controller.reduced() == controller.ceiling,
{
}

/// The rate rises by a twentieth of the ceiling, by a hundred at least, and not above
/// the ceiling.
pub proof fn recovery_adds_a_twentieth(controller: BitrateController)
    requires
        controller.wf(),
    ensures
        controller.raised() <= controller.ceiling,
        controller.raised() < controller.ceiling ==> controller.raised() - controller.current
            >= 100 && 20 * (controller.raised() - controller.current) <= (if controller.ceiling
            < 2000 {
            2000int
        } else {
            controller.ceiling as int
        }) < 20 * (controller.raised() - controller.current) + 20,
{
}

/// A client falls behind with more than eighty milliseconds in its queue or two lost
/// groups, and keeps up with less than thirty and none; it never does both.
pub proof fn a_client_falls_behind_or_keeps_up(queue_ms: u32, dropped: u32)
    ensures
        queue_ms >= 81 ==> congested(queue_ms, dropped),
        dropped >= 2 ==> congested(queue_ms, dropped),
        queue_ms <= 80 && dropped <= 1 ==> !congested(queue_ms, dropped),
        queue_ms <= 29 && dropped == 0 ==> clear(queue_ms, dropped),
        queue_ms >= 30 || dropped > 0 ==> !clear(queue_ms, dropped),
        !(congested(queue_ms, dropped) && clear(queue_ms, dropped)),
{
}

/// Of two groups at most one is newer than the other, and after a group the ones with
/// larger numbers are newer.
pub proof fn groups_are_ordered(a: u64, b: u64)
    ensures
        newer(None, a),
        newer(Some(a), b) <==> a < b,
        !(newer(Some(a), b) && newer(Some(b), a)),
{
}

/// Between two groups the ones in between are lost, and the one that was open if it had
/// not ended; what is told to the host never wraps.
pub proof fn lost_groups_are_those_in_between(
    receiver: VideoReceiver,
    next: u64,
    unfinished: bool,
    between: u64,
)
    requires
        receiver.sequence matches Some(previous) && previous + between + 1 == next,
        receiver.dropped + between + 1 <= u32::MAX,
    ensures
        receiver.begun(next, unfinished).dropped == receiver.dropped + between + (
        if receiver.current && unfinished {
            1int
        } else {
            0
        }),
        receiver.begun(next, unfinished).sequence == Some(next),
        receiver.begun(next, unfinished).current,
{
}

/// The first group loses none, and an old one changes nothing.
pub proof fn first_and_old_groups_lose_nothing(receiver: VideoReceiver, next: u64, unfinished: bool)
    ensures
        receiver.sequence is None && !receiver.current ==> receiver.begun(next, unfinished).dropped
            == receiver.dropped && receiver.begun(next, unfinished).sequence == Some(next),
        receiver.sequence matches Some(previous) && next <= previous ==> receiver.begun(
            next,
            unfinished,
        ) == receiver,
{
}

/// A sum is itself where it fits, and the largest number otherwise.
pub proof fn sums_saturate(a: u32, b: u32)
    ensures
        a + b <= 0xffff_ffff ==> saturated(a as int, b as int) == a + b,
        a + b > 0xffff_ffff ==> saturated(a as int, b as int) == 0xffff_ffffu32,
{
}

/// One bad second lowers the rate, and five good seconds in a row raise it; a second that
/// is neither breaks the row. A rate that did not change is not reported.
pub proof fn rates_follow_the_client(
    before: BitrateController,
    queue_ms: u32,
    dropped: u32,
    after: BitrateController,
    r: Option<u32>,
)
    requires
        before.wf(),
        before.current <= 1_000_000_000,
        before.observed(queue_ms, dropped, after, r),
    ensures
        after.ceiling == before.ceiling,
        queue_ms > 80 || dropped >= 2 ==> after.current <= before.current && after.clean_samples
            == 0 && (before.current > 667 && before.ceiling >= 500 ==> 4 * after.current <= 3
            * before.current < 4 * after.current + 4),
        queue_ms < 30 && dropped == 0 && before.clean_samples < 4 ==> after.current
            == before.current && after.clean_samples == before.clean_samples + 1,
        queue_ms < 30 && dropped == 0 && before.clean_samples == 4 ==> after.current
            >= before.current && after.clean_samples == 0 && (before.current < before.ceiling
            ==> after.current > before.current),
        30 <= queue_ms <= 80 && dropped < 2 ==> after.current == before.current
            && after.clean_samples == 0,
        queue_ms < 30 && dropped == 1 ==> after.current == before.current && after.clean_samples
            == 0,
        r is Some <==> after.current != before.current,
        r matches Some(rate) ==> rate == after.current,
{
    congestion_takes_a_quarter(before);
    recovery_adds_a_twentieth(before);
}

/// Hardware is tried before software where nothing was asked for, and what was asked for
/// is used or fails.
pub proof fn encoders_are_tried_in_turn(failed: usize)
    ensures
        selection(EncoderKind::Auto, 0) == EncoderStep::Probe(EncoderKind::Vaapi),
        selection(EncoderKind::Auto, 1) == EncoderStep::Probe(EncoderKind::Nvidia),
        failed >= 2 ==> selection(EncoderKind::Auto, failed) == EncoderStep::Use(
            EncoderKind::Software,
        ),
        selection(EncoderKind::Software, failed) == EncoderStep::Use(EncoderKind::Software),
        selection(EncoderKind::Vaapi, 0) == EncoderStep::Probe(EncoderKind::Vaapi),
        selection(EncoderKind::Nvidia, 0) == EncoderStep::Probe(EncoderKind::Nvidia),
        failed > 0 ==> selection(EncoderKind::Vaapi, failed) == EncoderStep::Fail(
            EncoderKind::Vaapi,
        ) && selection(EncoderKind::Nvidia, failed) == EncoderStep::Fail(EncoderKind::Nvidia),
{
}

/// Every group begins with a key frame, and only frames in a group are written.
pub proof fn groups_begin_with_key_frames(delta: bool, group_open: bool)
    ensures
        sampled(delta, group_open).open <==> !delta,
        sampled(false, group_open).write,
        sampled(false, group_open).finish == group_open,
        sampled(true, true).write && !sampled(true, true).finish,
        !sampled(true, false).write && !sampled(true, false).finish,
{
}

/// The decoder of the machine is used where there is one and nothing else was wished.
pub proof fn the_decoder_that_is_used(force_software: bool, native: bool)
    ensures
        native && !force_software ==> has_part(decoder_text(force_software, native), "vtdec_hw"@),
        !native || force_software ==> has_part(
            decoder_text(force_software, native),
            "avdec_h264 max-threads=2"@,
        ),
{
    let before = crate::media::DECODE@;
    let after = crate::media::DECODE_END@;
    crate::laws::numerals::pieces_are_found_again(before, "vtdec_hw"@, after);
    crate::laws::numerals::pieces_are_found_again(before, "avdec_h264 max-threads=2"@, after);
}

/// A queue is told as it is, and one that does not fit as the most that does.
pub proof fn queues_are_told(ms: u64)
    ensures
        told_ms(None) == 0,
        ms <= 0xffff_ffff ==> told_ms(Some(ms)) == ms,
        ms > 0xffff_ffff ==> told_ms(Some(ms)) == 0xffff_ffffu32,
{
}

/// A frame that is read grows by what comes, and a newer group takes its place; an older
/// one does not.
pub proof fn frames_are_put_together(read: MediaReadView, next: u64, more: Seq<u8>)
    ensures
        read.frame matches Some(bytes) ==> read.after(MediaInput::Bytes(more)) == (MediaReadView {
            sequence: read.sequence,
            frame: Some(bytes + more),
        }),
        read.frame is None ==> read.after(MediaInput::Bytes(more)) == read,
        read.sequence matches Some(previous) ==> next <= previous ==> read.after(
            MediaInput::Group(next),
        ) == read,
        read.sequence matches Some(previous) ==> next > previous ==> read.after(
            MediaInput::Group(next),
        ) == (MediaReadView { sequence: Some(next), frame: None }),
        read.sequence is None ==> read.after(MediaInput::Group(next)) == (MediaReadView {
            sequence: Some(next),
            frame: None,
        }),
{
}

// ----------------------------------------------------------------------- trials

/// A decoder under test must give back every mark once, on pictures of 320 by 180 that can
/// be read whole.
pub proof fn a_decoder_is_judged(
    before: Probe,
    frame: ProbedFrame,
    hdr: bool,
    require_identity: bool,
    after: Probe,
    r: Result<(), Error>,
)
    requires
        before.judged(frame, hdr, require_identity, after, r),
    ensures
        r is Ok ==> frame.width == 320 && frame.height == 180 && frame.mapped >= 172_800 && (hdr
            || frame.rgb),
        r is Ok && require_identity ==> (frame.reference matches Some(mark)
            && !before.seen().contains(mark) && after.seen().contains(mark)),
        r is Ok && !require_identity ==> after.seen() == before.seen(),
        frame.width == 320 && frame.height == 180 && frame.mapped >= 172_800 && (hdr || frame.rgb)
            && !require_identity ==> r is Ok,
        require_identity && (frame.reference matches Some(mark) && before.seen().contains(mark))
            ==> r is Err,
        require_identity && frame.reference is None ==> r is Err,
        !hdr && !frame.rgb ==> r == Err::<(), Error>(Error::ProbeRgb),
        (hdr || frame.rgb) && (frame.width != 320 || frame.height != 180) ==> r == Err::<(), Error>(
            Error::ProbeSize,
        ),
        (hdr || frame.rgb) && frame.width == 320 && frame.height == 180 ==> {
            &&& require_identity && frame.reference is None ==> r == Err::<(), Error>(
                Error::ProbeIdentity,
            )
            &&& require_identity && (frame.reference matches Some(mark) && before.seen().contains(
                mark,
            )) ==> r == Err::<(), Error>(Error::ProbeReference)
            &&& !require_identity && frame.mapped < 172_800 ==> r == Err::<(), Error>(
                Error::ProbeIncomplete,
            )
        },
{
}

/// What is said of an HDR picture: its width before its height, and its depth.
pub proof fn an_hdr_picture_is_described(info: FrameInfo, r: Result<String, Error>)
    requires
        inspected(info, r),
    ensures
        r matches Ok(line) ==> line@ == decimal(info.width as nat) + ("x"@ + decimal(
            info.height as nat,
        )) + (", "@ + info.format@) + (", "@ + decimal(info.depth->0 as nat) + ("-bit, "@
            + info.colorimetry@)),
        r is Ok <==> info.depth is Some && info.depth->0 >= 10 && info.transfer
            == Transfer::Smpte2084 && info.primaries == Primaries::Bt2020 && info.buffer is Some
            && info.buffer->0 > 0,
        info.depth is None || info.depth->0 < 10 ==> r == Err::<String, Error>(
            Error::ReducedPrecision,
        ),
        r == Err::<String, Error>(Error::LostTransfer) ==> info.transfer == Transfer::Other,
        r == Err::<String, Error>(Error::LostPrimaries) ==> info.primaries == Primaries::Other,
        r == Err::<String, Error>(Error::NoFrameBuffer) ==> info.buffer is None,
        r == Err::<String, Error>(Error::EmptyFrameBuffer) ==> info.buffer == Some(0usize),
{
    if let Ok(line) = r {
        let a = decimal(info.width as nat);
        let b = "x"@ + decimal(info.height as nat);
        let c = ", "@ + info.format@;
        let d = ", "@ + decimal(info.depth->0 as nat);
        let e = "-bit, "@ + info.colorimetry@;
        assert(line@ =~= a + b + c + (d + e));
    }
}

/// An encoder has passed where a picture came through, and its line says so.
pub proof fn what_is_reported_of_an_encoder(
    encoder: Seq<char>,
    decoder: Seq<char>,
    finding: Finding,
    r: (String, bool),
)
    requires
        reported(encoder, decoder, finding, r),
    ensures
        r.1 <==> finding is Passed,
        has_prefix(r.0@, encoder),
        finding is Passed ==> has_part(r.0@, ": PASS ("@),
        finding is Failed ==> has_part(r.0@, ": FAIL ("@),
        finding is NoEncoder ==> has_part(r.0@, "unavailable (plugin/device)"@),
        finding is NoDecoder ==> has_part(r.0@, "untested"@),
{
    reveal_strlit(": unavailable (plugin/device)");
    reveal_strlit("unavailable (plugin/device)");
    reveal_strlit(": untested; ");
    reveal_strlit("untested");
    match finding {
        Finding::NoEncoder => {
            let tail = "unavailable (plugin/device)"@;
            assert(r.0@ =~= (encoder + ": unavailable (plugin/device)"@.take(2)) + tail
                + Seq::<char>::empty());
            crate::laws::numerals::pieces_are_found_again(
                encoder + ": unavailable (plugin/device)"@.take(2),
                tail,
                Seq::empty(),
            );
            assert(r.0@.take(encoder.len() as int) =~= encoder);
        },
        Finding::NoDecoder => {
            let end = "; "@;
            reveal_strlit("; ");
            assert(r.0@ =~= (encoder + ": untested; "@.take(2)) + "untested"@ + (end + decoder
                + " unavailable"@));
            crate::laws::numerals::pieces_are_found_again(
                encoder + ": untested; "@.take(2),
                "untested"@,
                end + decoder + " unavailable"@,
            );
            assert(r.0@.take(encoder.len() as int) =~= encoder);
        },
        Finding::Passed { description } => {
            let head = encoder + " -> "@ + decoder;
            assert(r.0@ =~= head + ": PASS ("@ + (description@ + ")"@));
            crate::laws::numerals::pieces_are_found_again(head, ": PASS ("@, description@ + ")"@);
            assert(r.0@.take(encoder.len() as int) =~= encoder);
        },
        Finding::Failed { message } => {
            let head = encoder + " -> "@ + decoder;
            assert(r.0@ =~= head + ": FAIL ("@ + (message@ + ")"@));
            crate::laws::numerals::pieces_are_found_again(head, ": FAIL ("@, message@ + ")"@);
            assert(r.0@.take(encoder.len() as int) =~= encoder);
        },
    }
}

/// The HDR encoders, hardware first, and the format that each takes.
pub proof fn hdr_encoders_in_turn(index: usize, r: Option<Encoder>)
    requires
        offered(index, r),
    ensures
        r is Some <==> index <= 2,
        index == 0 ==> r->0.name@ == "nvh265enc"@ && r->0.format@ == "P010_10LE"@ && r->0.settings@
            == "bitrate=2000 gop-size=15 bframes=0 zerolatency=true"@,
        index == 1 ==> r->0.name@ == "vah265enc"@ && r->0.format@ == "P010_10LE"@ && r->0.settings@
            == "bitrate=2000 key-int-max=15 b-frames=0"@,
        index == 2 ==> r->0.name@ == "x265enc"@ && r->0.format@ == "I420_10LE"@,
{
}

/// The sound that is recorded is that of the output that was named.
pub proof fn what_is_recorded(source: Seq<char>, r: Result<String, Error>)
    requires
        described(source, r),
    ensures
        source == "test"@ ==> r is Ok && has_prefix(r->Ok_0@, "audiotestsrc"@),
        source != "test"@ && r is Ok ==> has_part(r->Ok_0@, "pulsesrc device="@ + source)
            && has_suffix(source, ".monitor"@),
        r is Err ==> r->Err_0 == Error::AudioSource,
{
    if source == "test"@ {
        reveal_strlit("audiotestsrc is-live=true wave=sine volume=0.05");
        reveal_strlit("audiotestsrc");
        assert(r->Ok_0@.take(12) =~= "audiotestsrc"@);
    } else if r is Ok {
        let tail = " provide-clock=false buffer-time=20000 latency-time=10000"@;
        assert(r->Ok_0@ =~= Seq::<char>::empty() + ("pulsesrc device="@ + source) + tail);
        crate::laws::numerals::pieces_are_found_again(
            Seq::empty(),
            "pulsesrc device="@ + source,
            tail,
        );
    }
}

/// Decoders are tried in the order of their list, and software comes last, or first where
/// it was wished.
pub proof fn decoders_are_tried_in_turn(
    force_software: bool,
    codec: VideoCodec,
    macos: bool,
    tried: usize,
    r: DecoderStep,
)
    requires
        chosen(force_software, codec, macos, tried, r),
    ensures
        force_software ==> r is Software,
        !force_software && tried < candidate_names(codec, macos).len() ==> (r matches
            DecoderStep::Try(name) && name@ == candidate_names(codec, macos)[tried as int]),
        tried >= candidate_names(codec, macos).len() ==> r is Software,
        r matches DecoderStep::Software(name) ==> name@ == software_name(codec),
{
}

} // verus!
