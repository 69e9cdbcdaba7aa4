use teleport::access::server::{fresh_record, ServerState};
use teleport::capture::{self, portal_size, resolve, Backend, Capture, PortalReply, Settle, Source};
use teleport::clipboard;
use teleport::error::Error;
use teleport::host::{authorized, check_pairing_file, describe, scaled_size, InputOrder};
use teleport::host_admin::{
    check_directory, check_leftover, check_peer, check_socket, dispatch, frame_request,
    frame_response, outcome, refuse, request_for, request_length, response_length, socket_address,
    still_ours, AdminCommand, Control, PathFacts, Probe, Request, Response, Service,
};
use teleport::host_ui::{
    self, button_place, field_place, HostUi, UiEvent, CLOSE, CONFIRM_LIMIT, OPEN, PASSWORD,
    REVOKE, REVOKE_ALL, SAVE, START, STOP, USERNAME,
};
use teleport::launcher::{self, arguments, font_candidates, font_path, progress, Launcher, Step};
use teleport::pairing::Keys;
use teleport::profiles::Profile;
use teleport::protocol::{Event, Pairing, MAX_TEXT};
use teleport::windowing;

#[test]
fn the_host_scales_and_describes() {
    assert_eq!(scaled_size(1281, 1920, 1080), Ok((1280, 720)));
    assert_eq!(scaled_size(1280, 1280, 1), Ok((1280, 2)));
    assert_eq!(scaled_size(640, 1280, 720), Ok((640, 360)));
    assert_eq!(scaled_size(3840, 100, 200), Err(Error::ScaledHeight));
    assert_eq!(scaled_size(2048, 1, 2_097_152), Err(Error::ScaledHeight));
    assert_eq!(scaled_size(2160, 2160, 4320), Ok((2160, 4320)));
    let desktop = describe(1280, 720, 60, "X11");
    assert_eq!((desktop.version, desktop.width, desktop.height, desktop.fps), (2, 1280, 720, 60));
    assert_eq!(desktop.source, "X11");
    assert!(authorized("/teleport/ab", "ab"));
    assert!(!authorized("/teleport/ac", "ab"));
    assert!(!authorized("/teleport/abc", "ab"));
    assert_eq!(check_pairing_file(false), Ok(()));
    assert_eq!(check_pairing_file(true), Err(Error::PairingFileExists));
    let mut order = InputOrder::new();
    assert_eq!(order.take(0), Ok(()));
    assert_eq!(order.take(2), Err(Error::InputGap));
    assert_eq!(order.take(1), Ok(()));
    assert_eq!(order.next_group(), 0);
    assert_eq!(order.next_group(), 1);
}

#[test]
fn capture_sources() {
    assert_eq!(resolve("auto", Some("wayland"), false), Ok(Source::Portal));
    assert_eq!(resolve("auto", None, true), Ok(Source::Portal));
    assert_eq!(resolve("auto", Some("x11"), false), Ok(Source::X11));
    assert_eq!(resolve("x11", None, true), Err(Error::X11OnWayland));
    assert_eq!(resolve("test", None, true), Ok(Source::Test));
    assert_eq!(resolve("other", None, false), Err(Error::UnknownSource));
    let reply = |keyboard, stream, size| PortalReply { keyboard, pointer: true, stream, size };
    assert_eq!(portal_size(&reply(true, true, Some((3, 4)))), Ok((3, 4)));
    assert_eq!(portal_size(&reply(false, true, Some((3, 4)))), Err(Error::PortalPermission));
    assert_eq!(portal_size(&reply(true, false, Some((3, 4)))), Err(Error::NoPortalMonitor));
    assert_eq!(portal_size(&reply(true, true, None)), Err(Error::NoPortalSize));
    assert_eq!(portal_size(&reply(true, true, Some((0, 4)))), Err(Error::PortalSize));
}

#[test]
fn held_keys_are_let_go() {
    let mut capture = Capture::new(Backend::X11, 100, 50);
    assert_eq!(capture.name(), "X11");
    assert_eq!(capture.pipeline_source(), "ximagesrc use-damage=false show-pointer=true");
    let press = capture.input(Event::Key { code: 30, down: true }).ok().unwrap();
    assert_eq!(press.actions, vec![capture::Action::Fake { kind: 2, detail: 38 }]);
    assert_eq!(press.settle, Settle::Nothing);
    assert!(capture.input(Event::Key { code: 30, down: true }).ok().unwrap().actions.is_empty());
    let release = capture.input(Event::Key { code: 30, down: false }).ok().unwrap();
    assert_eq!(release.actions, vec![capture::Action::Fake { kind: 3, detail: 38 }]);
    assert_eq!(release.settle, Settle::Key(30));
    assert!(capture.keys.contains(&30));
    capture.settled(release.settle);
    assert!(capture.keys.is_empty());
    let scroll = capture.input(Event::Scroll { x: 0, y: -2 }).ok().unwrap();
    assert_eq!(scroll.actions.len(), 4);
    assert_eq!(scroll.actions[0], capture::Action::Fake { kind: 4, detail: 5 });
    capture.input(Event::Button { button: 2, down: true }).ok().unwrap();
    capture.input(Event::Key { code: 31, down: true }).ok().unwrap();
    assert_eq!(
        capture.release_all(),
        vec![
            capture::Action::Fake { kind: 3, detail: 39 },
            capture::Action::Fake { kind: 5, detail: 2 },
        ]
    );
    assert!(capture.release_all().is_empty());
    assert_eq!(
        capture.input(Event::Key { code: 0, down: true }).err(),
        Some(Error::UnsupportedKey)
    );
    let mut portal = Capture::new(Backend::Portal { fd: 3, node: 9 }, 100, 50);
    assert_eq!(
        portal.pipeline_source(),
        "pipewiresrc fd=3 path=9 do-timestamp=true ! video/x-raw"
    );
    let press = portal.input(Event::Button { button: 2, down: true }).ok().unwrap();
    assert_eq!(press.actions, vec![capture::Action::PortalButton { code: 274, down: true }]);
    let scroll = portal.input(Event::Scroll { x: 3, y: 2 }).ok().unwrap();
    assert_eq!(
        scroll.actions,
        vec![
            capture::Action::PortalAxis { vertical: true, steps: -2 },
            capture::Action::PortalAxis { vertical: false, steps: 3 },
        ]
    );
}

#[test]
fn clipboard_helpers() {
    assert_eq!(clipboard::command(false, true), ("xclip", vec!["-selection", "clipboard", "-in"]));
    assert_eq!(
        clipboard::command(true, false),
        ("wl-paste", vec!["--no-newline", "--type", "text"])
    );
    assert_eq!(clipboard::read(b"text".to_vec(), true), Ok("text".to_string()));
    assert_eq!(clipboard::read(vec![0; MAX_TEXT + 1], true), Err(Error::ClipboardTooLong));
    assert_eq!(clipboard::read(b"text".to_vec(), false), Err(Error::ClipboardRead));
    assert_eq!(clipboard::read(vec![255], true), Err(Error::ClipboardEncoding));
    assert_eq!(clipboard::read(vec![0], true), Err(Error::ClipboardText));
    assert_eq!(clipboard::check_write("a\0"), Err(Error::ClipboardText));
    assert_eq!(clipboard::written(false), Err(Error::ClipboardWrite));
}

#[test]
fn window_policy() {
    assert!(windowing::prefer_x11(Some(":0"), false, false));
    assert!(!windowing::prefer_x11(Some(""), false, false));
    assert!(!windowing::prefer_x11(None, false, false));
    assert!(!windowing::prefer_x11(Some(":0"), true, false));
    assert!(windowing::plain_framebuffer("x11"));
    assert!(!windowing::plain_framebuffer("wayland"));
    assert_eq!(windowing::software_renderer(&vec!["opengl", "software"]), Some(1));
    assert_eq!(windowing::software_renderer(&vec!["opengl"]), None);
}

fn facts(directory: bool, socket: bool, owner: u32, mode: u32) -> PathFacts {
    PathFacts { directory, socket, owner, user: 1000, mode, inode: 5, device: 6 }
}

/// The identity directory belongs to the user alone.
#[test]
fn rejects_public_identity_directory() {
    assert_eq!(check_directory(facts(true, false, 1000, 0o40700)), Ok(()));
    assert_eq!(
        check_directory(facts(true, false, 1000, 0o40755)),
        Err(Error::AdminDirectory)
    );
    assert_eq!(check_directory(facts(true, false, 0, 0o40700)), Err(Error::AdminDirectory));
}

/// A socket that took the place of ours is not removed.
#[test]
fn socket_drop_does_not_remove_replacement() {
    assert!(still_ours(Some(facts(false, true, 1000, 0)), 5, 6));
    assert!(!still_ours(Some(facts(false, true, 1000, 0)), 4, 6));
    assert!(!still_ours(None, 5, 6));
    assert_eq!(check_socket(facts(false, true, 1000, 0o140600)), Ok(()));
    assert_eq!(check_socket(facts(false, false, 1000, 0o140600)), Err(Error::AdminSocket));
    assert_eq!(check_peer(Some(1000), 1000), Ok(()));
    assert_eq!(check_peer(None, 1000), Err(Error::AdminPeer));
    let leftover = facts(false, true, 1000, 0o140600);
    assert_eq!(check_leftover(leftover, Probe::Refused), Ok(()));
    assert_eq!(check_leftover(leftover, Probe::Failed), Err(Error::SocketUnchecked));
    assert_eq!(check_leftover(leftover, Probe::Connected), Err(Error::SocketOwned));
    assert_eq!(
        check_leftover(facts(true, false, 1000, 0o40700), Probe::Refused),
        Err(Error::ExistingSocket)
    );
    assert!(socket_address(7).contains('7'));
}

#[test]
fn admin_messages_carry_their_length() {
    assert_eq!(frame_request(b"ab"), Ok(vec![0, 0, 0, 2, b'a', b'b']));
    assert_eq!(frame_request(&[0; 8193]), Err(Error::AdminRequestLarge));
    assert_eq!(frame_response(&[0; 65537]), Err(Error::AdminResponseLarge));
    assert_eq!(request_length([0, 0, 32, 0]), Ok(8192));
    assert_eq!(request_length([0, 0, 32, 1]), Err(Error::AdminRequestLarge));
    assert_eq!(response_length([0, 1, 0, 0]), Ok(65536));
    assert_eq!(response_length([0, 1, 0, 1]), Err(Error::AdminResponseLarge));
    let refused = outcome(refuse(Error::PairingClosed));
    assert!(matches!(refused, Err(message) if message == "pairing closed"));
    assert!(outcome(Response::default()).is_ok());
}

#[test]
fn passwords_are_entered_twice_and_wiped() {
    let mut again = "secret".to_string();
    let command = AdminCommand::SetPassword { username: "ej".to_string() };
    let mut request = request_for(command, "secret".to_string(), &mut again).unwrap();
    assert_eq!(again, "");
    assert_eq!(
        request,
        Request::SetPassword { username: "ej".to_string(), password: "secret".to_string() }
    );
    request.clear_password();
    assert_eq!(
        request,
        Request::SetPassword { username: "ej".to_string(), password: String::new() }
    );
    let mut other = "other".to_string();
    let command = AdminCommand::SetPassword { username: "ej".to_string() };
    assert_eq!(
        request_for(command, "secret".to_string(), &mut other),
        Err(Error::PasswordsDiffer)
    );
}

/// A code pairs one device, and a closed code none.
#[test]
fn local_admin_and_revocable_code_enrollment() {
    let legacy = Pairing { token: "a".repeat(64), fingerprint: "b".repeat(64) };
    let mut access =
        ServerState::open(fresh_record(vec![1]), legacy, true, true, true).ok().unwrap();
    let mut control = Control::new();
    assert!(!control.listening(false, 0));
    assert!(control.listening(true, 0));
    let shown = control.apply(&mut access, &Request::OpenPairing, vec![], 5).unwrap().unwrap();
    assert!(control.pairing_open(5));
    assert!(control.listening(false, 6));
    let attempt = control.attempt(6).ok().unwrap();
    assert_eq!(shown, format!("{}-{}", &attempt.value[..3], &attempt.value[3..]));
    let keys = Keys::new(b"shared", b"client", b"host");
    assert_eq!(control.confirm(&attempt, &keys, b"wrong", 7), Err(Error::PairingProof));
    assert_eq!(control.confirm(&attempt, &keys, &keys.prove(), 7), Ok(()));
    assert!(!control.pairing_open(8));
    assert!(!control.listening(false, 8));
    assert_eq!(control.attempt(8).err(), Some(Error::PairingClosed));
    control.open_pairing_with(42, 10);
    for _ in 0..5 {
        assert!(control.attempt(11).is_ok());
    }
    assert_eq!(control.attempt(11).err(), Some(Error::PairingOver));
    control.open_pairing_with(42, 10);
    let attempt = control.attempt(11).ok().unwrap();
    assert_eq!(attempt.value, "000042");
    control.close_pairing();
    assert!(control.confirm(&attempt, &keys, &keys.prove(), 12).is_err());
    let set = Request::SetPassword {
        username: "ej".to_string(),
        password: "A long test passphrase!".to_string(),
    };
    assert_eq!(control.apply(&mut access, &set, vec![9], 12), Ok(None));
    let device = access.enroll_device("phone").ok().unwrap();
    let response = control.respond("a:1", "ff", &access.status(), None, 13);
    assert_eq!(response.username, Some("ej".to_string()));
    assert_eq!(response.devices.len(), 1);
    let id = response.devices[0].id.clone();
    assert_eq!(control.apply(&mut access, &Request::RevokeDevice { id }, vec![], 13), Ok(None));
    assert!(!access.authorized(&device.token));
    let id = "none".to_string();
    assert_eq!(
        control.apply(&mut access, &Request::RevokeDevice { id }, vec![], 13),
        Err(Error::DeviceNotFound)
    );
    assert_eq!(dispatch(b"TPAUTH01"), Service::Login);
    assert_eq!(dispatch(b"TPPAIR01"), Service::Pairing);
    assert_eq!(dispatch(b"GET / HT"), Service::Nobody);
}

fn click(index: usize) -> UiEvent {
    let rect = button_place(index);
    UiEvent::Click { x: rect.x + 1, y: rect.y + 1 }
}

#[test]
fn host_settings_ask_before_cutting_off() {
    let mut ui = HostUi::new();
    assert_eq!(ui.next(0), Some(host_ui::Action::Admin(Request::Status)));
    assert!(ui.pending);
    ui.received(Ok(Response::default()), "active".to_string(), 1);
    assert!(!ui.pending);
    assert_eq!(ui.next(2), None);
    assert!(!ui.event(click(START), 3));
    assert_eq!(ui.next(3), Some(host_ui::Action::Service(true)));
    ui.received(Ok(Response::default()), "active".to_string(), 4);
    ui.event(click(STOP), 5);
    assert_eq!(ui.next(5), None);
    ui.event(click(STOP), 6);
    assert_eq!(ui.next(6), Some(host_ui::Action::Service(false)));
    ui.received(Ok(Response::default()), "inactive".to_string(), 7);
    ui.event(click(REVOKE_ALL), 8);
    ui.begin(9 + CONFIRM_LIMIT);
    assert_eq!(ui.message, host_ui::EXPIRED);
    ui.event(click(REVOKE_ALL), 10 + CONFIRM_LIMIT);
    assert!(ui.action.is_none());
    ui.event(click(OPEN), 11 + CONFIRM_LIMIT);
    assert_eq!(
        ui.next(11 + CONFIRM_LIMIT),
        Some(host_ui::Action::Admin(Request::OpenPairing))
    );
    let mut answer = Response::default();
    answer.code = Some("123-456".to_string());
    answer.pairing_open = true;
    ui.received(Ok(answer), "active".to_string(), 12 + CONFIRM_LIMIT);
    let shown = |ui: &HostUi, now| ui.lines(now).iter().any(|line| line.text == "Code: 123-456");
    assert!(shown(&ui, 13 + CONFIRM_LIMIT));
    assert!(!shown(&ui, 12 + CONFIRM_LIMIT + host_ui::CODE_SHOWN));
    ui.event(click(CLOSE), 14 + CONFIRM_LIMIT);
    assert!(ui.pairing_code.is_none());
    ui.received(Err("gone".to_string()), "failed".to_string(), 15 + CONFIRM_LIMIT);
    assert!(ui.status.is_none());
    ui.event(click(REVOKE), 16 + CONFIRM_LIMIT);
}

#[test]
fn host_settings_take_a_password() {
    let mut ui = HostUi::new();
    ui.event(UiEvent::Text("ej".to_string()), 0);
    ui.event(UiEvent::Tab, 0);
    ui.event(UiEvent::Text("secret one".to_string()), 0);
    assert_eq!(ui.field_label(USERNAME), "ej");
    assert_eq!(ui.field_label(PASSWORD), "••••••••••");
    ui.event(click(SAVE), 1);
    assert_eq!(ui.message, host_ui::MISMATCH);
    ui.event(UiEvent::Tab, 1);
    ui.event(UiEvent::Paste("secret one".to_string()), 1);
    ui.event(click(SAVE), 2);
    let expected = Request::SetPassword {
        username: "ej".to_string(),
        password: "secret one".to_string(),
    };
    assert_eq!(ui.next(2), Some(host_ui::Action::Admin(expected)));
    assert_eq!(ui.values[1], "");
    assert_eq!(ui.values[2], "");
    assert!(ui.event(UiEvent::Quit, 3));
    let place = field_place(USERNAME);
    assert_eq!((place.x, place.y, place.width, place.height), (28, 274, 260, 42));
    ui.close();
    assert_eq!(ui.values[0], "ej");
}

fn saved(address: &str) -> Profile {
    Profile { address: address.to_string(), pairing_file: format!("{address}.json") }
}

#[test]
fn the_launcher_connects_to_trusted_hosts() {
    let mut launcher = Launcher::new(vec![saved("a:1"), saved("b:2")]);
    assert_eq!(launcher.address, "b:2");
    let connect = || launcher::UiEvent::Click { x: 50, y: 370 };
    assert_eq!(launcher.event(connect()), Step::Connect);
    launcher.launched(Ok(()));
    assert!(launcher.running);
    assert_eq!(launcher.status, launcher::CONNECTING);
    assert_eq!(launcher.event(connect()), Step::Nothing);
    launcher.exited(true, "exit status: 0");
    assert_eq!(launcher.status, launcher::ENDED);
    let next = || launcher::UiEvent::Click { x: 500, y: 240 };
    launcher.event(next());
    assert_eq!(launcher.address, "a:1");
    launcher.event(next());
    assert_eq!(launcher.address, "b:2");
    launcher.event(launcher::UiEvent::Text("x".to_string()));
    assert_eq!(launcher.event(connect()), Step::Nothing);
    assert_eq!(launcher.status, launcher::UNTRUSTED);
    launcher.event(launcher::UiEvent::Backspace);
    assert_eq!(launcher.event(connect()), Step::Connect);
    launcher.event(launcher::UiEvent::Drop("/p".to_string()));
    assert_eq!(launcher.pairing_path, "/p");
    assert_eq!(launcher.event(launcher::UiEvent::Click { x: 50, y: 240 }), Step::Import);
    launcher.imported(Err("no".to_string()));
    assert_eq!(launcher.status, "Import failed: no");
    launcher.imported(Ok(vec![saved("b:2")]));
    assert_eq!(launcher.status, launcher::IMPORTED);
    launcher.event(launcher::UiEvent::Click { x: 50, y: 310 });
    assert!(launcher.clipboard);
    assert!(launcher.lines().iter().any(|line| line.text == "[x] Share text clipboard"));
    assert_eq!(
        launcher.event(launcher::UiEvent::Click { x: 500, y: 370 }),
        Step::Disconnect
    );
    assert_eq!(launcher.event(launcher::UiEvent::Quit), Step::Quit);
}

#[test]
fn the_launcher_starts_the_client() {
    assert_eq!(
        arguments(&saved("a:1"), true, true),
        vec!["client", "a:1", "--pairing-file", "a:1.json", "--reconnect", "--clipboard", "--mute"]
    );
    assert_eq!(
        progress("INFO desktop connected"),
        Some("Connected — native desktop session is ready.")
    );
    assert_eq!(
        progress("will reconnect"),
        Some("Connection interrupted; retrying. Check host/network or disconnect.")
    );
    assert_eq!(progress("secret"), None);
    assert_eq!(font_candidates(None).len(), 3);
    assert_eq!(font_candidates(Some("/f".to_string()))[0], "/f");
    assert_eq!(font_path(&[false, true, true]), Ok(1));
    assert_eq!(font_path(&[false, false]), Err(Error::NoFont));
}
