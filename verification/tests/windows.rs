use teleport::client::session::{scroll, Headless, Local, Session, Told, UiEvent};
use teleport::client::{
    after_session, button, check_address, check_desktop, desktop_area, desktop_point, session_url,
    toolbar_hit, toolbar_rect, ConnectStep, ConnectWindow, Ended, InputCounter, MouseButton, Next,
    Options, AUDIO, BUTTONS, DISCONNECT, FULLSCREEN, GET_TEXT, HALF, MONITOR, RECONNECT, SEND_TEXT,
};
use teleport::error::Error;
use teleport::fullscreen::{check_display, Chrome, Placement, HEIGHT, HIDE_AFTER};
use teleport::geometry::Rect;
use teleport::hdr_present::{
    check_headroom, validate_plane, ChromaSite, HdrPresenter, Overlay, P010Frame, PresentOutcome,
    SurfaceInfo, NV12_LIMITED, ONE, WARM_UP,
};
use teleport::keyboard_capture::{
    quits, Action, Capture, Follow, KeyEvent, Shortcuts, KEY_F8, KEY_K, KEY_Q,
};
use teleport::media::{Image, Nv12Image};
use teleport::multi_display::{
    assignments, mapping_shared, next_monitor, reveal_strip, validate_frame,
    video_generation_matches, Command, DisplayEvent, Displays, Draw, Shown, WindowInput,
    FIRST_PICTURE, NEXT_WIDTH,
};
use teleport::protocol::{Desktop, DynamicRange, Event, Monitor, Update, VideoCodec};

const SECOND: u128 = 1_000_000_000;

#[test]
fn toolbar_hides_reveals_and_stays_local() {
    let mut chrome = Chrome::new();
    chrome.set_fullscreen(true);
    let now = chrome.last_interaction;
    assert!(!chrome.update_at(Some((500, 500)), false, now + SECOND));
    assert!(chrome.update_at(Some((500, 500)), false, now + HIDE_AFTER));
    assert!(!chrome.visible());
    assert!(!chrome.blocks_pointer(50));
    assert!(chrome.blocks_pointer(0));
    assert!(chrome.update_at(Some((500, 0)), false, now + 2 * SECOND));
    assert!(chrome.blocks_pointer(50));
    assert!(!chrome.update_at(Some((500, 20)), false, now + 10 * SECOND));
    assert!(!chrome.update_at(None, true, now + 20 * SECOND));
    assert!(chrome.update_at(None, false, now + 22 * SECOND));
    chrome.set_fullscreen(false);
    assert!(chrome.visible());
    assert!(!chrome.update_at(None, false, now + 100 * SECOND));
}

/// The picture of a full screen stands still, whether or not the toolbar shows.
#[test]
fn fullscreen_geometry_does_not_shift_when_chrome_reveals() {
    let mut chrome = Chrome::new();
    let window = (1920, 1080);
    assert_eq!(chrome.inset(), HEIGHT);
    assert!(chrome.pointer(960, 50, window, window, (1774, 998)).is_none());
    chrome.set_fullscreen(true);
    assert_eq!(chrome.rect(window, window), Rect::new(0, 0, 1920, 1080));
    let center = chrome.pointer(960, 540, window, window, window);
    let shown = chrome.rect(window, window);
    assert!(chrome.pointer(960, 50, window, window, window).is_none());
    chrome.update_at(None, false, chrome.last_interaction + HIDE_AFTER);
    assert!(!chrome.visible());
    assert_eq!(chrome.rect(window, window), shown);
    assert_eq!(center, Some((960, 540)));
    assert_eq!(chrome.pointer(960, 540, window, window, window), center);
    assert!(chrome.pointer(960, 50, window, window, window).is_some());
    assert!(chrome.pointer(960, 3, window, window, window).is_none());
    assert!(chrome.pointer(-1, 500, window, window, window).is_none());
    assert!(chrome.pointer(1920, 500, window, window, window).is_none());
    assert!(chrome.pointer(960, 1080, window, window, window).is_none());
}

#[test]
fn letterboxing_portrait_and_hidpi_use_logical_coordinates() {
    let mut chrome = Chrome::new();
    chrome.set_fullscreen(true);
    chrome.update_at(None, false, chrome.last_interaction + HIDE_AFTER);
    let (window, image, scaled) = ((1920, 1080), (720, 1280), (608, 1080));
    let rect = chrome.rect(window, scaled);
    assert_eq!(rect.height, 1080);
    assert_eq!((rect.x, rect.y), (656, 0));
    assert!(chrome.pointer(0, 500, window, image, scaled).is_none());
    assert_eq!(chrome.pointer(rect.x, 500, window, image, scaled), Some((0, 500)));
    assert_eq!(
        chrome.pointer(720, 450, (1440, 900), (2880, 1800), (1440, 900)),
        Some((720, 450))
    );
    assert!(chrome.pointer(20, 20, (100, 100), (0, 0), (1, 1)).is_none());
}

/// No window is too large: a place below the signed numbers wraps, and is clamped.
#[test]
fn the_largest_windows_have_a_place() {
    let mut chrome = Chrome::new();
    let huge = (u32::MAX, u32::MAX);
    let place = chrome.rect(huge, (1, 1));
    assert_eq!((place.x, place.y), (1_073_741_823, -1_073_741_824));
    chrome.set_fullscreen(true);
    let place = chrome.rect(huge, (1, 1));
    assert_eq!((place.x, place.y), (1_073_741_823, 1_073_741_823));
    assert!(chrome.pointer(0, 0, huge, (1, 1), huge).is_none());
}

#[test]
fn a_window_keeps_room_for_its_toolbar() {
    let mut chrome = Chrome::new();
    assert!(!chrome.fullscreen());
    assert_eq!(chrome.inset(), HEIGHT);
    assert_eq!(chrome.area((1920, 1080)), (HEIGHT, 1920, 1080 - HEIGHT));
    chrome.set_fullscreen_at(true, 5);
    assert_eq!(chrome.inset(), 0);
    assert_eq!(chrome.area((1920, 1080)), (0, 1920, 1080));
    assert!(chrome.visible());
    let place = Placement::capture((1, 2), (3, 4), true);
    assert!(place.maximized && place.position == (1, 2) && place.size == (3, 4));
    assert_eq!(check_display(1, 2), Ok(()));
    assert_eq!(check_display(2, 2), Err(Error::DisplayGone));
    assert_eq!(check_display(-1, 2), Err(Error::DisplayGone));
}

const NOMOD: u16 = 0;
const LCTRL: u16 = 0x40;
const RCTRL: u16 = 0x80;
const LALT: u16 = 0x100;
const RALT: u16 = 0x200;
const TAB: i32 = 9;
const LGUI: i32 = 1_073_742_051;

fn key(keycode: i32, down: bool, modifiers: u16, repeat: bool) -> KeyEvent {
    KeyEvent { keycode: Some(keycode), modifiers, down, repeat }
}

#[test]
fn toggle_consumes_repeat_and_release_in_both_modes() {
    for captured in [false, true] {
        let mut shortcuts = Shortcuts::default();
        let chord = LCTRL | LALT;
        assert_eq!(
            shortcuts.event(&key(KEY_K, true, chord, false), captured),
            Some(Action::Toggle)
        );
        assert_eq!(
            shortcuts.event(&key(KEY_K, true, chord, true), !captured),
            Some(Action::Swallow)
        );
        assert_eq!(
            shortcuts.event(&key(KEY_K, false, NOMOD, false), !captured),
            Some(Action::Swallow)
        );
        assert_eq!(shortcuts.event(&key(KEY_K, true, NOMOD, false), captured), None);
    }
}

#[test]
fn captured_shortcuts_go_remote_except_emergency_controls() {
    let mut shortcuts = Shortcuts::default();
    for code in [TAB, KEY_F8, LGUI] {
        assert_eq!(shortcuts.event(&key(code, true, LALT, false), true), None);
        assert_eq!(shortcuts.event(&key(code, false, NOMOD, false), true), None);
    }
    assert_eq!(
        shortcuts.event(&key(KEY_Q, true, RCTRL | RALT, false), true),
        Some(Action::Disconnect)
    );
}

#[test]
fn local_stats_release_stays_local_after_capture_changes() {
    let mut shortcuts = Shortcuts::default();
    assert_eq!(
        shortcuts.event(&key(KEY_F8, true, NOMOD, false), false),
        Some(Action::Stats)
    );
    assert_eq!(
        shortcuts.event(&key(KEY_F8, false, NOMOD, false), true),
        Some(Action::Swallow)
    );
}

#[test]
fn capture_follows_the_focus() {
    let mut capture = Capture::default();
    assert!(!capture.active());
    assert_eq!(capture.follow(Some(3)), Follow::Stay);
    assert!(!capture.bind(3, false));
    assert!(capture.bind(3, true));
    assert!(capture.active());
    assert_eq!(capture.follow(Some(3)), Follow::Stay);
    assert_eq!(capture.follow(Some(4)), Follow::Bind(4));
    assert_eq!(capture.follow(None), Follow::Release);
    assert_eq!(capture.release(), Some(3));
    assert_eq!(capture.release(), None);
}

#[test]
fn monitor_remapping_wraps_and_shared_tracks_remain_live() {
    assert_eq!(next_monitor(0, 2), Some(1));
    assert_eq!(next_monitor(1, 2), Some(0));
    assert_eq!(next_monitor(0, 1), None);
    assert_eq!(next_monitor(0, 0), None);
    assert!(!mapping_shared(&[0, 1], 0));
    assert!(mapping_shared(&[1, 1], 0));
    assert!(mapping_shared(&[1, 1], 1));
    assert!(!mapping_shared(&[1], 0));
    assert!(!mapping_shared(&[], 0));
}

fn frame() -> Image {
    Image {
        decoder_recovery: 0,
        video_group: Some(0),
        data: vec![0; 12],
        width: 2,
        height: 2,
        stride: 6,
        hdr: None,
        nv12: None,
        surface: false,
    }
}

#[test]
fn auxiliary_upload_rejects_short_rgb_and_overflowing_strides() {
    let mut image = frame();
    assert!(validate_frame(&image).is_ok());
    image.data.truncate(11);
    assert!(validate_frame(&image).is_err());
    image.stride = usize::MAX;
    assert!(validate_frame(&image).is_err());
}

#[test]
fn auxiliary_nv12_checks_both_planes_and_even_dimensions() {
    let mut image = frame();
    image.nv12 = Some(Nv12Image {
        y: vec![0; 4],
        uv: vec![0; 2],
        y_stride: 2,
        uv_stride: 2,
    });
    assert!(validate_frame(&image).is_ok());
    image.nv12.as_mut().unwrap().uv.truncate(1);
    assert!(validate_frame(&image).is_err());
    image.width = 3;
    assert!(validate_frame(&image).is_err());
}

#[test]
fn every_refusal_of_a_picture_is_named() {
    let mut image = frame();
    image.stride = 5;
    assert_eq!(validate_frame(&image), Err(Error::ImageStride));
    image.stride = usize::MAX;
    assert_eq!(validate_frame(&image), Err(Error::ImageStride));
    image.stride = 6;
    image.height = 3;
    assert_eq!(validate_frame(&image), Err(Error::PlaneTruncated));
    let mut odd = frame();
    odd.nv12 = Some(Nv12Image { y: vec![0; 6], uv: vec![0; 3], y_stride: 3, uv_stride: 3 });
    odd.width = 3;
    assert_eq!(validate_frame(&odd), Err(Error::OddNv12));
}

#[test]
fn plane_bounds_allow_padding_but_reject_truncation_and_overflow() {
    assert!(validate_plane(&[0; 12], 8, 4, 2).is_ok());
    assert!(validate_plane(&[0; 11], 8, 4, 2).is_err());
    assert!(validate_plane(&[], usize::MAX, 4, 3).is_err());
    assert!(validate_plane(&[0; 12], 2, 4, 2).is_err());
}

#[test]
fn p010_requires_even_dimensions_and_pixel_aligned_strides() {
    let mut frame = P010Frame {
        width: 2,
        height: 2,
        y: &[0; 8],
        uv: &[0; 4],
        y_stride: 4,
        uv_stride: 4,
    };
    assert!(frame.validate().is_ok());
    frame.uv_stride = 5;
    assert!(frame.validate().is_err());
    frame.uv_stride = 4;
    frame.width = 3;
    assert!(frame.validate().is_err());
}

fn desktop(monitors: usize) -> Desktop {
    Desktop {
        dynamic_range: DynamicRange::Sdr,
        codec: VideoCodec::H264,
        codecs: vec![VideoCodec::H264],
        version: 2,
        width: 1280,
        height: 720,
        fps: 60,
        source: "test".to_string(),
        monitors: (0..monitors)
            .map(|id| Monitor { id, name: format!("m{id}"), width: 1280, height: 720 })
            .collect(),
        active_monitor: 0,
        audio: true,
        clipboard: true,
        telemetry: false,
        configurable_video: true,
        native_width: 1280,
        native_height: 720,
        bitrate: 8000,
        video_start_group: 3,
    }
}

fn options() -> Options {
    Options {
        address: "a:1".to_string(),
        pairing_file: "p".to_string(),
        headless_frames: None,
        software_renderer: false,
        software_decoder: false,
        exit_after_frames: None,
        smoke_input: true,
        smoke_switch_monitor: false,
        smoke_audio: false,
        smoke_clipboard: false,
        reconnect: false,
        clipboard: true,
        mute: false,
        monitor: None,
    }
}

#[test]
fn additional_windows_show_other_monitors() {
    assert_eq!(assignments(3, 0, 3, 0), vec![(1, 1), (2, 2)]);
    assert_eq!(assignments(2, 1, 3, 2), vec![(0, 0)]);
    assert_eq!(assignments(1, 0, 3, 0), vec![]);
    let mut displays = Displays::new(VideoCodec::H264, DynamicRange::Sdr);
    assert!(!displays.active());
    let (commands, planned) = displays.start(false, 2, 0, &desktop(2));
    assert_eq!(commands, vec![Command::Input(Event::ReleaseAll)]);
    assert_eq!(planned, Err(Error::NoIndependentStreams));
    let (_, planned) = displays.start(true, 2, 0, &desktop(2));
    assert_eq!(planned, Ok(vec![(1, 1)]));
    assert_eq!(displays.open(7, 1, 1), Command::Stream { index: 1, enabled: true });
    assert!(displays.active());
    assert_eq!(displays.update(1, &desktop(2)), Err(Error::AuxiliaryMetadata));
    let mut described = desktop(2);
    described.active_monitor = 1;
    assert_eq!(displays.update(1, &described), Ok(()));
    let screen = &mut displays.screens[0];
    assert!(matches!(screen.draw(None, 0, 5), Ok(Draw::Paint)));
    assert_eq!(screen.draw(None, 0, FIRST_PICTURE + 6).err(), Some(Error::NoConfirmedVideo));
    let mut image = frame();
    assert!(matches!(screen.draw(Some(&image), 0, 6), Ok(Draw::Idle)));
    image.width = 1280;
    image.height = 720;
    image.stride = 3840;
    image.data = vec![0; 3840 * 720];
    image.video_group = Some(2);
    assert!(!screen.current(&image) && !screen.takes(&image, 0));
    assert!(matches!(screen.draw(Some(&image), 0, 6), Ok(Draw::Idle)));
    image.video_group = Some(3);
    assert!(screen.current(&image) && screen.takes(&image, 0));
    assert!(!screen.takes(&image, 1));
    assert!(matches!(screen.draw(Some(&image), 1, 6), Ok(Draw::Idle)));
    assert!(matches!(screen.draw(Some(&image), 0, 6), Ok(Draw::Paint)));
    assert!(screen.ready);
    assert!(screen.upload(false, 1280, 720));
    assert!(!screen.upload(false, 1280, 720));
    screen.presented(true);
    assert_eq!(screen.frame, Shown::Plain);
    assert!(screen.label().contains('2'));
}

/// A picture whose planes are too short is refused, but its size is known by then.
#[test]
fn short_planes_are_refused_after_the_size_is_taken() {
    let mut displays = Displays::new(VideoCodec::H264, DynamicRange::Sdr);
    displays.open(7, 1, 1);
    let mut described = desktop(2);
    described.active_monitor = 1;
    assert_eq!(displays.update(1, &described), Ok(()));
    let screen = &mut displays.screens[0];
    let mut image = frame();
    image.width = 1280;
    image.height = 720;
    image.stride = 3840;
    image.video_group = Some(3);
    assert!(screen.draw(Some(&image), 0, screen.started).is_err());
    assert_eq!(screen.size, (1280, 720));
    assert!(screen.ready);
    assert_eq!(screen.frame, Shown::Plain);
    assert!(matches!(screen.draw(None, 0, screen.started), Ok(Draw::Idle)));
}

#[test]
fn pictures_belong_to_their_settings() {
    assert!(video_generation_matches(3, Some(3)));
    assert!(video_generation_matches(3, Some(4)));
    assert!(!video_generation_matches(3, Some(2)));
    assert!(!video_generation_matches(0, None));
}

#[test]
fn wheels_scroll_within_limits() {
    assert_eq!(scroll(3, false), 3);
    assert_eq!(scroll(3, true), -3);
    assert_eq!(scroll(500, false), 20);
    assert_eq!(scroll(i32::MIN, false), -20);
    assert_eq!(scroll(i32::MIN, true), 20);
}

#[test]
fn input_on_an_additional_window() {
    let mut displays = Displays::new(VideoCodec::H264, DynamicRange::Sdr);
    displays.open(7, 1, 1);
    let window = |input| DisplayEvent::Window { id: 7, input };
    let at = Some((HALF, HALF));
    let down = || WindowInput::ButtonDown { button: MouseButton::Left, x: 300, y: 400, at };
    let reaction = displays.event(window(down()), 3, 1);
    assert!(reaction.handled && reaction.commands.is_empty());
    displays.screens[0].ready = true;
    let reaction = displays.event(window(down()), 3, 1);
    assert_eq!(
        reaction.commands,
        vec![
            Command::Motion { index: 1, x: HALF, y: HALF },
            Command::Input(Event::Button { button: 1, down: true }),
        ]
    );
    let other = DisplayEvent::Window { id: 8, input: WindowInput::Focus };
    assert!(!displays.event(other, 3, 1).handled);
    let next = WindowInput::ButtonDown { button: MouseButton::Left, x: 10, y: 5, at: None };
    let reaction = displays.event(window(next), 3, 2);
    assert_eq!(reaction.restart, Some(0));
    assert_eq!(
        reaction.commands,
        vec![
            Command::Input(Event::ReleaseAll),
            Command::Stream { index: 1, enabled: false },
        ]
    );
    assert_eq!(displays.screens[0].remote, 2);
    assert_eq!(displays.restarted(0), Command::Stream { index: 2, enabled: true });
    let exit =
        WindowInput::ButtonDown { button: MouseButton::Left, x: NEXT_WIDTH, y: 5, at: None };
    let reaction = displays.event(window(exit), 3, 3);
    assert_eq!(
        reaction.commands,
        vec![
            Command::Input(Event::ReleaseAll),
            Command::Input(Event::ReleaseAll),
            Command::Stream { index: 2, enabled: false },
        ]
    );
    assert!(!displays.active());
    let strip = reveal_strip((1920, 1080));
    assert_eq!((strip.y, strip.height > 0), (0, true));
}

#[test]
fn presenters_keep_to_their_kind() {
    let frame = P010Frame { width: 2, height: 2, y: &[0; 8], uv: &[0; 4], y_stride: 4, uv_stride: 4 };
    let mut hdr = HdrPresenter::new();
    let sdr = HdrPresenter::new_sdr();
    assert_eq!(hdr.check_present(&frame, &[], (10, 10)), Ok(()));
    assert_eq!(sdr.check_present(&frame, &[], (10, 10)), Err(Error::NeedsHdrPresenter));
    assert_eq!(hdr.check_present(&frame, &[], (0, 10)), Err(Error::EmptyWindow));
    assert_eq!(sdr.check_present_surface(&[], (10, 10)), Ok(()));
    assert_eq!(hdr.check_present_surface(&[], (10, 10)), Err(Error::NeedsSdrPresenter));
    let overlay =
        Overlay { rect: Rect::new(0, 0, 1, 1), width: 1, height: 1, stride: 4, rgba: &[0; 4] };
    assert_eq!(overlay.validate(), Ok(()));
    let many: Vec<Overlay> = (0..17)
        .map(|_| Overlay {
            rect: Rect::new(0, 0, 1, 1),
            width: 1,
            height: 1,
            stride: 4,
            rgba: &[0; 4],
        })
        .collect();
    assert_eq!(hdr.check_present(&frame, &many, (10, 10)), Err(Error::TooManyOverlays));
    let uneven =
        Overlay { rect: Rect::new(0, 0, 1, 1), width: 1, height: 1, stride: 5, rgba: &[0; 5] };
    assert_eq!(uneven.validate(), Err(Error::OverlayAlignment));
    assert_eq!(check_headroom(f64::NAN.to_bits()), Err(Error::InvalidHeadroom));
    assert_eq!(check_headroom(ONE), Ok(true));
    assert_eq!(check_headroom(2.5f64.to_bits()), Ok(false));
    assert_eq!(hdr.headroom(ONE, 10), Ok(true));
    assert_eq!(hdr.headroom(ONE, 10 + WARM_UP), Err(Error::NoHeadroom));
    let headroom = 2.0f64.to_bits();
    assert_eq!(hdr.headroom(headroom, 20), Ok(false));
    let reserve = hdr.reserve(2, 2);
    assert!(!reserve.wait && !reserve.reuse);
    assert_eq!(hdr.submitted(2, 2, headroom), PresentOutcome::Presented { headroom });
    assert!(hdr.has_presented_hdr);
    assert_eq!(HdrPresenter::completed(true), Err(Error::GpuFailed));
    assert_eq!(HdrPresenter::completed(false), Ok(()));
}

#[test]
fn native_surfaces_are_checked() {
    let good = || SurfaceInfo {
        width: 4,
        height: 2,
        nv12: true,
        bt709_matrix: true,
        limited_range: true,
        bt709_transfer: true,
        bt709_primaries: true,
        chroma: ChromaSite::Mpeg2,
        io_surface: true,
        pixel_format: NV12_LIMITED,
        planes: 2,
        luma: (4, 2),
        chroma_size: (2, 1),
    };
    assert!(good().validate().is_ok());
    let with = |change: &dyn Fn(&mut SurfaceInfo)| {
        let mut info = good();
        change(&mut info);
        info.validate().err()
    };
    assert_eq!(with(&|i| i.width = 3), Some(Error::SurfaceFormat));
    assert_eq!(with(&|i| i.limited_range = false), Some(Error::SurfaceColor));
    assert_eq!(with(&|i| i.chroma = ChromaSite::Other), Some(Error::SurfaceChroma));
    assert_eq!(with(&|i| i.io_surface = false), Some(Error::SurfaceBacking));
    assert_eq!(with(&|i| i.pixel_format = 0), Some(Error::SurfaceRange));
    assert_eq!(with(&|i| i.planes = 3), Some(Error::SurfacePlanes));
    assert_eq!(with(&|i| i.luma = (2, 2)), Some(Error::SurfaceSize));
}

#[test]
fn rectangles_are_half_open() {
    let rect = Rect::new(10, 20, 5, 6);
    assert!(rect.contains_point(10, 20) && rect.contains_point(14, 25));
    assert!(!rect.contains_point(15, 20) && !rect.contains_point(10, 26));
    assert_eq!(rect.offset(12, 25), Some((2, 5)));
    assert_eq!(rect.offset(9, 25), None);
}

#[test]
fn the_client_checks_what_it_connects_to() {
    assert_eq!(check_address("host:1"), Ok(()));
    assert_eq!(check_address("https://host:1"), Err(Error::UseHostPort));
    assert_eq!(session_url("host:1", "ab"), "moqt://host:1/teleport/ab");
    assert_eq!(check_desktop(&desktop(2)), Ok(()));
    let mut wrong = desktop(1);
    wrong.version = 1;
    assert_eq!(check_desktop(&wrong), Err(Error::IncompatibleVersion));
    let mut wrong = desktop(1);
    wrong.width = 0;
    assert_eq!(check_desktop(&wrong), Err(Error::DesktopSize));
    let mut session = Session::new(&options(), desktop(1), false);
    let update = Update::Desktop { desktop: desktop(65) };
    assert_eq!(session.update(update).err(), Some(Error::MonitorMetadata));
}

#[test]
fn sessions_end_or_come_back() {
    let closed = |again, reconnect, headless| after_session(Ended::Closed { again }, reconnect, headless);
    assert!(matches!(closed(false, true, false), Next::Stop));
    assert!(matches!(closed(true, false, false), Next::Again(_)));
    let failed = |reconnect, headless| {
        after_session(Ended::Failed { message: "m".to_string() }, reconnect, headless)
    };
    assert!(matches!(failed(false, true), Next::Fail));
    assert!(matches!(failed(true, false), Next::Again(_)));
    let mut counter = InputCounter::new();
    let mut groups = 0;
    for expected in 0..600u64 {
        let (sequence, fresh) = counter.advance();
        assert_eq!(sequence, expected);
        groups += fresh as u32;
    }
    assert_eq!(groups, 2);
}

#[test]
fn the_toolbar_has_seven_buttons() {
    for index in 0..BUTTONS {
        let rect = toolbar_rect(index, 700);
        assert_eq!(toolbar_hit(rect.x, rect.y, 700), Some(index));
    }
    assert_eq!(toolbar_hit(5, 200, 700), None);
    assert_eq!(desktop_area((700, 500)), (700, 456));
    assert_eq!(desktop_point(3, 50), Some((3, 6)));
    assert_eq!(desktop_point(3, 10), None);
    assert_eq!(button(MouseButton::Right), Some(3));
    assert_eq!(button(MouseButton::Other), None);
}

#[test]
fn a_connect_window_tries_again() {
    let mut window = ConnectWindow::new(None);
    assert_eq!(window.tick(0), ConnectStep::Connect);
    window.failed("no route".to_string(), 0, true);
    assert_eq!(window.tick(1), ConnectStep::Wait);
    assert_eq!(window.tick(3 * SECOND), ConnectStep::Connect);
    let (first, _, _) = window.lines("a:1", true);
    assert!(first.contains("a:1"));
    assert_eq!(window.close(), ConnectStep::Cancel);
}

fn click(index: usize) -> UiEvent {
    let rect = toolbar_rect(index, 700);
    UiEvent::ButtonDown {
        button: MouseButton::Left,
        x: rect.x,
        y: rect.y,
        width: 700,
        at: None,
    }
}

#[test]
fn toolbar_clicks_act_on_the_session() {
    let mut session = Session::new(&options(), desktop(2), true);
    let reaction = session.ui(click(MONITOR), true);
    assert!(reaction.sends.contains(&Event::SelectMonitor { index: 1 }));
    assert!(session.flags.switching);
    let pressed = UiEvent::ButtonDown {
        button: MouseButton::Left,
        x: 100,
        y: 300,
        width: 700,
        at: Some((HALF, HALF)),
    };
    assert!(session.ui(pressed, false).sends.is_empty());
    let mut switched = desktop(2);
    switched.active_monitor = 1;
    assert!(matches!(
        session.update(Update::Desktop { desktop: switched }),
        Ok(Told::DropImage)
    ));
    assert_eq!(session.frame(1280, 720), Ok(true));
    assert!(!session.flags.switching);
    let pressed = UiEvent::ButtonDown {
        button: MouseButton::Left,
        x: 100,
        y: 300,
        width: 700,
        at: Some((HALF, HALF)),
    };
    assert_eq!(
        session.ui(pressed, false).sends,
        vec![
            Event::Motion { x: HALF, y: HALF },
            Event::Button { button: 1, down: true },
        ]
    );
    assert_eq!(session.ui(click(AUDIO), true).local, Local::Mute(true));
    assert_eq!(session.ui(click(SEND_TEXT), true).local, Local::ReadClipboard);
    assert!(session.ui(click(GET_TEXT), true).sends.contains(&Event::ClipboardRequest));
    assert!(matches!(
        session.update(Update::Clipboard { text: "t".to_string() }),
        Ok(Told::Copy(text)) if text == "t"
    ));
    assert_eq!(
        session.clipboard_read(Ok("mine".to_string())),
        Some(Event::Clipboard { text: "mine".to_string() })
    );
    assert_eq!(session.ui(click(FULLSCREEN), true).local, Local::Fullscreen);
    assert_eq!(session.ui(click(RECONNECT), true).local, Local::Quit);
    assert!(session.flags.reconnect);
    assert_eq!(session.ui(click(DISCONNECT), true).local, Local::Quit);
    assert_eq!(session.frame(3841, 720), Err(Error::ImageBounds));
    assert!(session.title("60").contains("60"));
}

#[test]
fn keys_wheel_and_motion_are_sent() {
    let mut session = Session::new(&options(), desktop(1), false);
    assert_eq!(session.check_video(0, 15 * SECOND + 1), Err(Error::NoInitialVideo));
    assert_eq!(session.frame(1280, 720), Ok(true));
    assert_eq!(session.check_video(0, 15 * SECOND + 1), Ok(()));
    let press = |scancode, keycode, modifiers| UiEvent::KeyDown {
        scancode: Some(scancode),
        keycode: Some(keycode),
        modifiers,
        repeat: false,
    };
    let a = press(4, 97, NOMOD);
    assert_eq!(session.ui(a, false).sends, vec![Event::Key { code: 30, down: true }]);
    let q = session.ui(press(20, KEY_Q, LCTRL), false);
    assert_eq!((q.sends, q.local), (vec![Event::Key { code: 16, down: true }], Local::Nothing));
    assert_eq!(session.ui(press(20, KEY_Q, RCTRL | LALT), false).local, Local::Quit);
    assert_eq!(session.ui(press(4, 97, LCTRL | LALT), false).local, Local::Nothing);
    assert!(quits(&key(KEY_Q, true, LCTRL | RALT, true)));
    assert!(!quits(&key(KEY_Q, false, LCTRL | RALT, false)));
    assert!(!quits(&key(KEY_K, true, LCTRL | RALT, false)));
    let wheel = UiEvent::Wheel { x: -50, y: 3, flipped: true };
    assert_eq!(session.ui(wheel, false).sends, vec![Event::Scroll { x: 20, y: -3 }]);
    let wheel = UiEvent::Wheel { x: 1, y: 1, flipped: false };
    assert!(session.ui(wheel, true).sends.is_empty());
    session.ui(UiEvent::Motion { at: Some((HALF, 0)) }, false);
    session.ui(UiEvent::Motion { at: Some((HALF, HALF)) }, false);
    assert_eq!(session.flush_motion(), Some(Event::Motion { x: HALF, y: HALF }));
    assert_eq!(session.flush_motion(), None);
    assert_eq!(session.ui(UiEvent::FocusLost, false).sends, vec![Event::ReleaseAll]);
    assert!(session.finished(Some(1)));
    assert!(!session.finished(None));
}

#[test]
fn headless_runs_follow_a_script() {
    assert_eq!(Headless::start(0, false, false).err(), Some(Error::FrameCount));
    assert_eq!(Headless::start(5, true, false).err(), Some(Error::NoAudioOffered));
    let mut run = Headless::start(6, false, false).ok().unwrap();
    let mut sent = Vec::new();
    for _ in 0..6 {
        assert!(!run.is_done());
        sent.extend(run.frame(&options(), true, 1280, 720, false).ok().unwrap());
    }
    assert!(run.is_done());
    assert!(!sent.is_empty());
    assert!(sent.iter().all(|event| event.validate().is_ok()));
    assert_eq!(run.finish(&options(), false), Ok(()));
    assert_eq!(run.check_time(0, 20 * SECOND + 1), Err(Error::HeadlessTimeout));
    assert_eq!(
        run.frame(&options(), true, 1280, 720, true).err(),
        Some(Error::EmptyFrame)
    );
    let mut wanted = options();
    wanted.smoke_audio = true;
    assert_eq!(run.finish(&wanted, false), Err(Error::NoAudioDecoded));
    wanted.smoke_clipboard = true;
    assert_eq!(run.finish(&wanted, true), Err(Error::ClipboardRoundtrip));
    wanted.smoke_switch_monitor = true;
    assert_eq!(run.finish(&wanted, true), Err(Error::NoPortraitFrames));
}
