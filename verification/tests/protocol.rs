use teleport::error::Error;
use teleport::protocol::{
    check_frame, evdev, in_unit_interval, ordered_group, parses_as_fingerprint,
    validate_video_size, Arrival, DynamicRange, Event, Pairing, Reorder, VideoCodec, MAX_FRAME, MAX_TEXT,
};

#[test]
fn input_bounds() {
    assert!(Event::ConfigureVideo { width: 0, fps: 120, bitrate: 100_000 }.validate().is_ok());
    for (width, fps, bitrate) in [
        (319, 60, 8000),
        (7681, 60, 8000),
        (1920, 0, 8000),
        (1920, 121, 8000),
        (1920, 60, 100_001),
    ] {
        assert!(Event::ConfigureVideo { width, fps, bitrate }.validate().is_err());
    }
    assert!(validate_video_size(5120, 1440).is_ok());
    assert!(validate_video_size(2160, 3840).is_ok());
    assert!(validate_video_size(7680, 8192).is_err());
    assert!(Event::Motion { x: f64::NAN.to_bits(), y: 0.0f64.to_bits() }.validate().is_err());
    assert!(Event::Motion { x: 1.1f64.to_bits(), y: 0.0f64.to_bits() }.validate().is_err());
    assert!(Event::Scroll { x: i32::MIN, y: 0 }.validate().is_err());
    assert!(Event::Key { code: 125, down: true }.validate().is_ok());
}

#[test]
fn keyboard_mapping() {
    // A, return, the right command key and F12, by their HID usages.
    assert_eq!(evdev(4), Some(30));
    assert_eq!(evdev(40), Some(28));
    assert_eq!(evdev(231), Some(126));
    assert_eq!(evdev(69), Some(88));
}

#[test]
fn every_refusal_of_an_event_is_named() {
    for (event, error) in [
        (Event::ConfigureVideo { width: 100, fps: 60, bitrate: 800 }, Error::VideoSettings),
        (Event::Motion { x: (-0.5f64).to_bits(), y: 0 }, Error::PointerCoordinates),
        (Event::Button { button: 4, down: true }, Error::UnsupportedButton),
        (Event::Button { button: 0, down: false }, Error::UnsupportedButton),
        (Event::Key { code: 128, down: true }, Error::UnsupportedKey),
        (Event::Key { code: 0, down: true }, Error::UnsupportedKey),
        (Event::Scroll { x: 0, y: 21 }, Error::ScrollRange),
        (Event::SelectMonitor { index: 64 }, Error::MonitorIndex),
        (Event::Clipboard { text: "a\0b".to_string() }, Error::ClipboardText),
        (Event::Clipboard { text: "x".repeat(MAX_TEXT + 1) }, Error::ClipboardText),
        (Event::Feedback { queue_ms: 60_001, dropped_groups: 0 }, Error::VideoFeedback),
    ] {
        assert_eq!(event.validate(), Err(error));
    }
    for event in [
        Event::ReleaseAll,
        Event::Ping,
        Event::Probe { id: 7 },
        Event::ClipboardRequest,
        Event::Clipboard { text: "x".repeat(MAX_TEXT) },
        Event::Scroll { x: -20, y: 20 },
        Event::Motion { x: 1.0f64.to_bits(), y: 0.25f64.to_bits() },
    ] {
        assert_eq!(event.validate(), Ok(()));
    }
    assert_eq!(validate_video_size(1, 100), Err(Error::VideoSize));
}

#[test]
fn the_unit_interval_is_that_of_floating_point() {
    for value in [
        0.0, -0.0, 1.0, 0.5, 1.0e-310, -1.0e-310, 1.0000000000000002, -1.0, 2.0, f64::INFINITY,
        f64::NEG_INFINITY, f64::NAN, 0.9999999999999999, f64::MIN_POSITIVE,
    ] {
        let expected = value >= 0.0 && value <= 1.0;
        assert_eq!(in_unit_interval(value.to_bits()), expected, "{value}");
    }
}

#[test]
fn a_pairing_has_a_token_and_a_fingerprint() {
    let pairing = |token: &str, fingerprint: &str| Pairing {
        token: token.to_string(),
        fingerprint: fingerprint.to_string(),
    };
    let hex = "ab".repeat(32);
    assert_eq!(pairing(&hex, &hex).validate(), Ok(()));
    assert_eq!(pairing("ab", &hex).validate(), Err(Error::PairingToken));
    assert_eq!(pairing(&hex, "ab").validate(), Err(Error::Fingerprint));
    assert!(parses_as_fingerprint(&format!("  {}\n", "AB".repeat(32))));
    assert!(!parses_as_fingerprint(&"g".repeat(64)));
    assert!(!parses_as_fingerprint(&"a".repeat(63)));
}

#[test]
fn names_of_codecs_and_ranges() {
    assert_eq!(VideoCodec::default(), VideoCodec::H264);
    assert_eq!(DynamicRange::default(), DynamicRange::Sdr);
    assert_ne!(VideoCodec::H264.track(), VideoCodec::H265.track());
    assert_ne!(DynamicRange::Sdr.label(), DynamicRange::Hdr10.label());
}

#[test]
fn frames_are_limited() {
    assert_eq!(check_frame(MAX_FRAME as u64, MAX_FRAME), Ok(()));
    assert_eq!(check_frame(MAX_FRAME as u64 + 1, MAX_FRAME), Err(Error::FrameLimit));
}

/// Groups that arrive out of order come out in order, and none is left out.
#[test]
fn control_groups_are_reordered_without_dropping_events() {
    let mut pending: Reorder<&str> = Reorder::new();
    assert!(pending.take(0).is_none());
    assert!(matches!(pending.offer(0, 1, "release"), Ok(Arrival::Held)));
    assert!(!pending.is_empty());
    assert!(matches!(pending.offer(0, 0, "press"), Ok(Arrival::Ready("press"))));
    assert_eq!(pending.take(1), Some("release"));
    assert!(pending.is_empty());
    assert_eq!(pending.offer(2, 1, "old").err(), Some(Error::ReorderWindow));
    assert_eq!(pending.offer(2, 19, "far").err(), Some(Error::ReorderWindow));
    assert!(matches!(pending.offer(2, 18, "edge"), Ok(Arrival::Held)));
    assert_eq!(pending.offer(2, 18, "again").err(), Some(Error::DuplicateGroup));
}

#[test]
fn a_shuffled_window_comes_out_sorted() {
    let arrivals: [u64; 8] = [3, 0, 1, 5, 2, 4, 7, 6];
    let mut pending: Reorder<u64> = Reorder::new();
    let mut expected: u64 = 0;
    let mut out = Vec::new();
    for sequence in arrivals {
        if let Ok(Arrival::Ready(group)) = pending.offer(expected, sequence, sequence * 10) {
            out.push(group);
            expected += 1;
            while let Some(group) = pending.take(expected) {
                out.push(group);
                expected += 1;
            }
        }
    }
    assert_eq!(out, vec![0, 10, 20, 30, 40, 50, 60, 70]);
    assert!(pending.is_empty());
}

/// A reading takes what it needs of the arrivals, however they are dealt out.
#[test]
fn a_reading_goes_on_where_it_stopped() {
    let mut pending: Reorder<&str> = Reorder::new();
    let mut arrivals = vec![(2, "c"), (1, "b")];
    assert_eq!(ordered_group(&mut pending, 0, &mut arrivals), Ok(None));
    assert!(arrivals.is_empty() && !pending.is_empty());
    arrivals = vec![(0, "a"), (3, "d")];
    assert_eq!(ordered_group(&mut pending, 0, &mut arrivals), Ok(Some("a")));
    assert_eq!(arrivals, vec![(3, "d")]);
    assert_eq!(ordered_group(&mut pending, 1, &mut arrivals), Ok(Some("b")));
    assert_eq!(ordered_group(&mut pending, 2, &mut arrivals), Ok(Some("c")));
    assert_eq!(arrivals, vec![(3, "d")]);
    assert_eq!(ordered_group(&mut pending, 3, &mut arrivals), Ok(Some("d")));
    assert!(arrivals.is_empty() && pending.is_empty());
    arrivals = vec![(5, "f"), (5, "f"), (4, "e")];
    assert_eq!(ordered_group(&mut pending, 4, &mut arrivals), Err(Error::DuplicateGroup));
    assert_eq!(arrivals, vec![(4, "e")]);
    let mut pending: Reorder<&str> = Reorder::new();
    arrivals = vec![(21, "far")];
    assert_eq!(ordered_group(&mut pending, 4, &mut arrivals), Err(Error::ReorderWindow));
    arrivals = vec![(3, "old")];
    assert_eq!(ordered_group(&mut pending, 4, &mut arrivals), Err(Error::ReorderWindow));
}

#[test]
fn keys_without_a_code_are_ignored() {
    assert_eq!(evdev(0), None);
    assert_eq!(evdev(50), None);
    assert_eq!(evdev(300), None);
    assert_eq!(evdev(39), Some(11));
    assert_eq!(evdev(58), Some(59));
    assert_eq!(evdev(67), Some(68));
    assert_eq!(evdev(224), Some(29));
    for scancode in 0..512usize {
        if let Some(code) = evdev(scancode) {
            assert_eq!(Event::Key { code, down: true }.validate(), Ok(()));
        }
    }
}
