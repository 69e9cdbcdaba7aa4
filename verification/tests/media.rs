use teleport::audio;
use teleport::decoder::{
    self, fragment, hardware_candidates, parser, DecoderStep, Probe, ProbedFrame, VideoFormat,
};
use teleport::error::Error;
use teleport::hdr::{self, inspect_frame, Finding, FrameInfo, Primaries, Transfer};
use teleport::media::{
    self, BitrateController, Doctor, EncoderKind, EncoderStep, MediaRead, VideoReceiver,
};
use teleport::protocol::{DynamicRange, VideoCodec};

#[test]
fn bitrate_reduces_quickly_and_recovers_slowly() {
    let mut rate = BitrateController::new(8_000);
    assert_eq!(rate.observe(100, 0), Some(6_000));
    for _ in 0..4 {
        assert_eq!(rate.observe(0, 0), None);
    }
    assert_eq!(rate.observe(0, 0), Some(6_400));
    assert_eq!(rate.observe(0, 2), Some(4_800));
    for _ in 0..100 {
        rate.observe(1000, 10);
    }
    assert_eq!(rate.current, 500);
    for _ in 0..1000 {
        rate.observe(0, 0);
    }
    assert_eq!(rate.current, 8_000);
}

#[test]
fn bitrate_never_exceeds_a_low_configured_cap() {
    let mut rate = BitrateController::new(200);
    assert_eq!(rate.observe(1000, 10), None);
    assert_eq!(rate.current, 200);
}

#[test]
fn videotoolbox_uses_parsed_codec_configuration() {
    assert!(fragment("vtdec_hw", VideoCodec::H264).contains("stream-format=avc"));
    assert!(fragment("vtdec_hw", VideoCodec::H265).contains("stream-format=hvc1"));
    assert!(fragment("nvh265dec", VideoCodec::H265).ends_with("video/x-raw"));
}

#[test]
fn candidates_cover_amd_intel_without_changing_macos() {
    assert_eq!(
        hardware_candidates(VideoCodec::H264, false),
        &["nvh264dec", "vah264dec", "qsvh264dec"]
    );
    assert_eq!(
        hardware_candidates(VideoCodec::H265, false),
        &["nvh265dec", "vah265dec", "qsvh265dec"]
    );
    for codec in [VideoCodec::H264, VideoCodec::H265] {
        assert_eq!(hardware_candidates(codec, true), &["vtdec_hw"]);
    }
}

#[test]
fn va_qsv_fragments_require_download_without_hdr_conversion() {
    for (codec, decoders) in [
        (VideoCodec::H264, ["vah264dec", "qsvh264dec"]),
        (VideoCodec::H265, ["vah265dec", "qsvh265dec"]),
    ] {
        for decoder in decoders {
            let pipeline = fragment(decoder, codec);
            assert_eq!(
                pipeline,
                format!("{} ! {decoder} name=video_decoder ! video/x-raw", parser(codec))
            );
            assert!(!pipeline.contains("memory:"));
            assert!(!pipeline.contains("tone-mapping"));
        }
    }
}

fn frame_info(depth: u32, transfer: Transfer, primaries: Primaries) -> FrameInfo {
    FrameInfo {
        width: 320,
        height: 180,
        format: "P010_10LE".to_string(),
        colorimetry: "bt2100-pq".to_string(),
        depth: Some(depth),
        transfer,
        primaries,
        buffer: Some(320 * 180 * 4),
    }
}

#[test]
fn precision_and_color_are_both_required() {
    // P010 with PQ, NV12 with PQ, P010 in BT.709, and P010 with HLG.
    assert!(inspect_frame(&frame_info(10, Transfer::Smpte2084, Primaries::Bt2020)).is_ok());
    assert!(inspect_frame(&frame_info(8, Transfer::Smpte2084, Primaries::Bt2020)).is_err());
    assert!(inspect_frame(&frame_info(10, Transfer::Other, Primaries::Other)).is_err());
    assert!(inspect_frame(&frame_info(10, Transfer::Other, Primaries::Bt2020)).is_err());
}

#[test]
fn hdr_findings_are_named() {
    let good = frame_info(10, Transfer::Smpte2084, Primaries::Bt2020);
    assert_eq!(inspect_frame(&good).unwrap(), "320x180, P010_10LE, 10-bit, bt2100-pq");
    let case = |depth, transfer, primaries| inspect_frame(&frame_info(depth, transfer, primaries));
    assert_eq!(
        case(8, Transfer::Smpte2084, Primaries::Bt2020),
        Err(Error::ReducedPrecision)
    );
    assert_eq!(case(10, Transfer::Other, Primaries::Bt2020), Err(Error::LostTransfer));
    assert_eq!(case(10, Transfer::Smpte2084, Primaries::Other), Err(Error::LostPrimaries));
    let mut empty = frame_info(12, Transfer::Smpte2084, Primaries::Bt2020);
    empty.buffer = None;
    assert_eq!(inspect_frame(&empty), Err(Error::NoFrameBuffer));
    empty.buffer = Some(0);
    assert_eq!(inspect_frame(&empty), Err(Error::EmptyFrameBuffer));
    empty.depth = None;
    assert_eq!(inspect_frame(&empty), Err(Error::ReducedPrecision));
    assert_eq!(hdr::check_profile("main-10"), Ok(()));
    assert_eq!(hdr::check_profile("main"), Err(Error::NotMain10));
}

#[test]
fn hdr_reports() {
    let encoder = hdr::encoder(2).unwrap();
    assert_eq!(encoder.name, "x265enc");
    assert!(hdr::encoder(3).is_none());
    assert_eq!(hdr::decoder(true, true), "vtdec_hw");
    assert_eq!(hdr::decoder(true, false), "avdec_h265");
    let text = hdr::probe_description(&encoder, "avdec_h265");
    assert!(text.starts_with(
        "videotestsrc num-buffers=6 pattern=gradient ! video/x-raw,format=I420_10LE,width=320"
    ));
    assert!(text.ends_with("! avdec_h265 ! appsink name=decoded sync=false max-buffers=6 drop=false"));
    let report = |finding| hdr::report("x265enc", "avdec_h265", &finding);
    assert_eq!(
        report(Finding::NoEncoder),
        ("x265enc: unavailable (plugin/device)".to_string(), false)
    );
    assert_eq!(
        report(Finding::NoDecoder),
        ("x265enc: untested; avdec_h265 unavailable".to_string(), false)
    );
    assert_eq!(
        report(Finding::Passed { description: "fine".to_string() }),
        ("x265enc -> avdec_h265: PASS (fine)".to_string(), true)
    );
    assert_eq!(
        report(Finding::Failed { message: "dark".to_string() }),
        ("x265enc -> avdec_h265: FAIL (dark)".to_string(), false)
    );
}

#[test]
fn decoders_are_tried_in_order() {
    let step = |force, codec, macos, tried| match decoder::select(force, codec, macos, tried) {
        DecoderStep::Try(name) => (true, name),
        DecoderStep::Software(name) => (false, name),
    };
    assert_eq!(step(false, VideoCodec::H264, false, 0), (true, "nvh264dec"));
    assert_eq!(step(false, VideoCodec::H264, false, 2), (true, "qsvh264dec"));
    assert_eq!(step(false, VideoCodec::H264, false, 3), (false, "avdec_h264"));
    assert_eq!(step(true, VideoCodec::H265, false, 0), (false, "avdec_h265"));
    assert_eq!(step(false, VideoCodec::H265, true, 0), (true, "vtdec_hw"));
    assert_eq!(fragment("avdec_h264", VideoCodec::H264),
        "h264parse ! avdec_h264 name=video_decoder max-threads=2 ! video/x-raw");
    assert_eq!(fragment("nvh264dec", VideoCodec::H264),
        "h264parse ! nvh264dec name=video_decoder max-display-delay=0 ! video/x-raw");
    assert_eq!(fragment("vtdec_hw", VideoCodec::H264),
        "h264parse ! video/x-h264,stream-format=avc,alignment=au ! vtdec_hw name=video_decoder ! video/x-raw");
}

#[test]
fn a_decoder_under_test_must_tell_pictures_apart() {
    let frame = |reference| ProbedFrame {
        rgb: true,
        width: 320,
        height: 180,
        reference,
        mapped: 172_800,
    };
    let mut probe = Probe::new();
    for i in (0..6).rev() {
        assert_eq!(probe.accept(&frame(Some(123_456_789 + i)), false, true), Ok(()));
    }
    assert_eq!(probe.references.len(), 6);
    assert_eq!(
        probe.accept(&frame(Some(123_456_789)), false, true),
        Err(Error::ProbeReference)
    );
    let mut probe = Probe::new();
    assert_eq!(
        probe.accept(&frame(Some(123_456_795)), false, true),
        Err(Error::ProbeReference)
    );
    assert_eq!(probe.accept(&frame(None), false, true), Err(Error::ProbeIdentity));
    assert_eq!(probe.accept(&frame(None), false, false), Ok(()));
    let mut dark = frame(None);
    dark.rgb = false;
    assert_eq!(probe.accept(&dark, false, false), Err(Error::ProbeRgb));
    assert_eq!(probe.accept(&dark, true, false), Ok(()));
    dark.width = 319;
    assert_eq!(probe.accept(&dark, true, false), Err(Error::ProbeSize));
    dark.width = 320;
    dark.mapped = 172_799;
    assert_eq!(probe.accept(&dark, true, false), Err(Error::ProbeIncomplete));
}

#[test]
fn the_test_pipeline_names_its_parts() {
    let hdr = VideoFormat { codec: VideoCodec::H265, dynamic_range: DynamicRange::Hdr10 };
    assert!(hdr.hdr());
    let text = decoder::probe_description("avdec_h265", hdr);
    assert!(text.starts_with(
        "videotestsrc num-buffers=6 ! video/x-raw,format=I420_10LE,colorimetry=bt2100-pq,width=320,height=180,framerate=30/1 ! x265enc"
    ));
    assert!(text.contains("profile=main-10 ! identity name=stamp ! h265parse ! avdec_h265"));
    assert!(text.ends_with("! appsink name=probe sync=false max-buffers=6 drop=false"));
    let sdr = VideoFormat { codec: VideoCodec::H264, dynamic_range: DynamicRange::Sdr };
    assert!(decoder::output_fragment(sdr).starts_with("videoconvert ! video/x-raw,format=RGB"));
    assert!(decoder::synthetic_encoder(sdr).starts_with("x264enc"));
}

#[test]
fn encoders_fall_back_to_software() {
    assert_eq!(media::select_encoder(EncoderKind::Software, 0), EncoderStep::Use(EncoderKind::Software));
    assert!(matches!(media::select_encoder(EncoderKind::Auto, 0), EncoderStep::Probe(_)));
    assert_eq!(
        media::select_encoder(EncoderKind::Auto, 9),
        EncoderStep::Use(EncoderKind::Software)
    );
    assert!(matches!(media::select_encoder(EncoderKind::Nvidia, 1), EncoderStep::Fail(_)));
    assert_eq!(
        media::encoder_fragment(EncoderKind::Software, 60, 8000),
        "x264enc name=video_encoder tune=zerolatency speed-preset=ultrafast bitrate=8000 key-int-max=15 bframes=0 threads=4 ! video/x-h264,profile=constrained-baseline"
    );
    assert_eq!(media::check_bitrate(8000), Ok(()));
    assert_eq!(media::check_bitrate(0), Err(Error::VideoBitrate));
}

#[test]
fn skipped_groups_are_counted() {
    let mut receiver = VideoReceiver::new();
    assert!(receiver.is_newer(0));
    receiver.begin(2, false);
    assert!(!receiver.is_newer(2) && receiver.is_newer(3));
    receiver.begin(5, true);
    assert_eq!(receiver.dropped, 3);
    receiver.ended();
    receiver.begin(6, true);
    assert_eq!(receiver.dropped, 3);
    receiver.broken();
    assert_eq!(receiver.dropped, 4);
    receiver.begin(6, true);
    receiver.begin(1, true);
    assert_eq!(receiver.dropped, 4);
    assert!(!receiver.is_newer(6) && receiver.is_newer(7));
    assert_eq!(VideoReceiver::check_queue(media::MAX_QUEUED), Err(Error::DecoderBehind));
    assert_eq!(VideoReceiver::check_queue(media::MAX_QUEUED - 1), Ok(()));
}

/// An older group that arrives late leaves the frame alone; a newer one takes over.
#[test]
fn reordered_old_group_does_not_cancel_partial_frame() {
    let mut read = MediaRead::new(Some(2));
    assert_eq!(read.announced(6, 1024), Ok(()));
    read.bytes(b"abc");
    assert!(!read.group(1));
    assert!(!read.group(2));
    read.bytes(b"def");
    assert_eq!(read.complete(), Some(b"abcdef".to_vec()));
    assert_eq!(read.complete(), None);
    read.bytes(b"stray");
    assert_eq!(read.complete(), None);
    assert_eq!(read.announced(6, 1024), Ok(()));
    read.bytes(b"abc");
    assert!(read.group(3));
    assert_eq!(read.sequence, Some(3));
    assert_eq!(read.complete(), None);
    assert_eq!(read.announced(1025, 1024), Err(Error::FrameLimit));
    assert_eq!(read.complete(), None);
    assert!(MediaRead::new(None).group(0));
}

#[test]
fn the_doctor_counts_what_is_missing() {
    let mut doctor = Doctor::new();
    doctor.required("queue", true);
    assert_eq!(doctor.finish(), Ok(()));
    doctor.optional("opusenc", false);
    assert_eq!(doctor.finish(), Ok(()));
    doctor.required("x264enc", false);
    assert_eq!(doctor.finish(), Err(Error::MissingPlugins));
}

#[test]
fn refuses_microphones_and_pipeline_injection() {
    assert!(audio::capture_description("alsa_output.pci-0000_00_1f.3.analog-stereo.monitor").is_ok());
    for source in [
        "",
        "default",
        "alsa_input.mic",
        "x.monitor ! filesink location=/tmp/evil",
        "x\".monitor",
    ] {
        assert!(audio::capture_description(source).is_err());
    }
}

#[test]
fn audio_sources_and_packets() {
    assert_eq!(
        audio::capture_description("test").unwrap(),
        "audiotestsrc is-live=true wave=sine volume=0.05"
    );
    assert_eq!(
        audio::capture_description("a.monitor").unwrap(),
        "pulsesrc device=a.monitor provide-clock=false buffer-time=20000 latency-time=10000"
    );
    let long = format!("{}.monitor", "a".repeat(505));
    assert_eq!(audio::capture_description(&long), Err(Error::AudioSource));
    assert!(audio::capture_description(&long[1..]).is_ok());
    assert_eq!(audio::capture_description("ä.monitor"), Err(Error::AudioSource));
    assert!(audio::encoder_description("audiotestsrc").starts_with("audiotestsrc ! audioconvert"));
    assert!(audio::decoder_description(audio::OUTPUT).ends_with("leaky=downstream ! autoaudiosink"));
    let mut receiver = audio::AudioReceiver::new();
    assert!(receiver.is_newer(0));
    receiver.begin(4);
    assert!(!receiver.is_newer(4) && receiver.current);
    assert_eq!(receiver.packet(true, 65_535), Ok(true));
    assert!(!receiver.current);
    assert_eq!(receiver.packet(false, 70_000), Ok(false));
    assert_eq!(receiver.packet(true, 65_536), Err(Error::AudioBehind));
}
