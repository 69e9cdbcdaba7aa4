use teleport::access::client::{Answer, ClientLogin};
use teleport::access::login::Login;
use teleport::access::server::{
    fresh_record, token_hash, Account, Address, Device, Record, ServerState, MAX_DEVICES,
    MAX_TICKETS, TICKET_LIFETIME,
};
use teleport::access::{
    accept_credential, check_login, frame_packet, login_context, open_challenge, open_credential,
    open_touch, packet_length, read_fingerprint, reply_kind, seal_credential, seal_credential_with,
    seal_touch, seal_touch_with, validate_hello, validate_password, validate_username,
    DeviceSummary, Hello, ReplyKind, MAX_PACKET, TOUCH_MAGIC, TOUCH_REPLY, TOUCH_REQUEST,
};
use teleport::error::Error;
use teleport::protocol::Pairing;
use teleport::security_key::{relying_party, Credential, ES256};

const PASSWORD: &str = "A long test passphrase!";

fn legacy() -> Pairing {
    Pairing { token: "a".repeat(64), fingerprint: "b".repeat(64) }
}

fn copy(record: &Record) -> Record {
    Record {
        version: record.version,
        setup: record.setup.clone(),
        account: record.account.as_ref().map(|account| Account {
            username: account.username.clone(),
            registration: account.registration.clone(),
        }),
        devices: record
            .devices
            .iter()
            .map(|device| Device {
                summary: DeviceSummary {
                    id: device.summary.id.clone(),
                    name: device.summary.name.clone(),
                    created_unix: device.summary.created_unix,
                    source: device.summary.source.clone(),
                },
                token_hash: device.token_hash.clone(),
            })
            .collect(),
        generation: record.generation,
        attempts: record.attempts.clone(),
        u2f: record.u2f.as_ref().map(copy_key),
        u2f_counter: record.u2f_counter,
    }
}

fn copy_key(key: &Credential) -> Credential {
    Credential {
        version: key.version,
        fingerprint: key.fingerprint.clone(),
        rp: key.rp.clone(),
        id: key.id.clone(),
        public_key: key.public_key.clone(),
        algorithm: key.algorithm,
        uv_required: key.uv_required,
    }
}

fn key() -> Credential {
    let fingerprint = "b".repeat(64);
    Credential {
        version: 1,
        rp: relying_party(&fingerprint).unwrap(),
        fingerprint,
        id: vec![1, 2, 3],
        public_key: vec![7; 64],
        algorithm: ES256,
        uv_required: true,
    }
}

fn open(record: Record) -> ServerState {
    ServerState::open(record, legacy(), true, true, true).ok().unwrap()
}

fn state() -> ServerState {
    let mut state = open(fresh_record(vec![1, 2, 3]));
    state.set_password("ej", PASSWORD, vec![4, 5, 6]).unwrap();
    state
}

fn hello(u2f: bool) -> Hello {
    Hello { username: "ej".to_string(), device_name: "work".to_string(), u2f }
}

#[test]
fn password_and_username_validation() {
    for bad in ["123456", "12345678901234567890", "aaaaaaaaaaaa", "            "] {
        assert!(validate_password(bad).is_err());
    }
    assert!(validate_password("  exact pass phrase  ").is_ok());
    for bad in ["", "has spaces", "user/name", "über"] {
        assert!(validate_username(bad).is_err());
    }
    assert!(validate_username("EJ-work_1").is_ok());
}

#[test]
fn refusals_of_names_and_passwords() {
    assert_eq!(validate_password("short"), Err(Error::PasswordLength));
    assert_eq!(validate_password(&"ab".repeat(513)), Err(Error::PasswordLength));
    assert_eq!(validate_password(&"ab".repeat(512)), Ok(()));
    assert_eq!(validate_password("123 456 789 012"), Err(Error::PasswordNumeric));
    assert_eq!(validate_password("aaaaaaaaaaaa"), Err(Error::PasswordRepeating));
    assert_eq!(validate_password("äöüäöüäöüäöü"), Ok(()));
    assert_eq!(validate_username(&"a".repeat(65)), Err(Error::Username));
    assert_eq!(validate_username(&"a".repeat(64)), Ok(()));
    assert_eq!(validate_hello(&hello(false)), Ok(()));
    let mut bad = hello(false);
    bad.device_name = "a\nb".to_string();
    assert_eq!(validate_hello(&bad), Err(Error::DeviceName));
    bad.device_name = "ü".repeat(65);
    assert_eq!(validate_hello(&bad), Err(Error::DeviceName));
    bad.device_name = "ü".repeat(64);
    assert_eq!(validate_hello(&bad), Ok(()));
    assert_eq!(check_login(&hello(true), PASSWORD), Ok(()));
    assert_eq!(check_login(&hello(true), ""), Err(Error::LoginPassword));
    assert_eq!(check_login(&hello(true), &"p".repeat(1025)), Err(Error::LoginPassword));
}

#[test]
fn packets_carry_their_length() {
    assert_eq!(frame_packet(b"abc").unwrap(), vec![0, 3, b'a', b'b', b'c']);
    assert_eq!(frame_packet(&[0; MAX_PACKET + 1]), Err(Error::PacketSize));
    assert_eq!(packet_length([0, 3]), Ok(3));
    assert_eq!(packet_length([16, 0]), Ok(4096));
    for header in [[0, 0], [16, 1], [255, 255]] {
        assert_eq!(packet_length(header), Err(Error::PacketSize));
    }
}

#[test]
fn u2f_encrypted_messages_bind_role_session_and_context() {
    let request = TOUCH_REQUEST.as_bytes();
    let reply = TOUCH_REPLY.as_bytes();
    let packet = seal_touch(b"session", request, b"context", b"challenge").unwrap();
    assert_eq!(open_touch(b"session", request, b"context", &packet).unwrap(), b"challenge");
    assert!(open_touch(b"session", reply, b"context", &packet).is_err());
    assert!(open_touch(b"other session", request, b"context", &packet).is_err());
    assert!(open_touch(b"session", request, b"other context", &packet).is_err());
    let mut tampered = packet;
    tampered[12] ^= 1;
    assert!(open_touch(b"session", request, b"context", &tampered).is_err());
}

#[test]
fn encrypted_credential_tampering_fails() {
    let payload = serde_json::to_vec(&serde_json::Value::Object(
        [
            ("token".to_string(), serde_json::Value::String("a".repeat(64))),
            ("fingerprint".to_string(), serde_json::Value::String("b".repeat(64))),
        ]
        .into_iter()
        .collect(),
    ))
    .unwrap();
    let session = b"test session secret";
    let mut packet = seal_credential_with(session, b"context", &payload, [0; 12]).unwrap();
    let opened = open_credential(session, b"context", &packet).unwrap();
    let value: serde_json::Value = serde_json::from_slice(&opened).unwrap();
    assert_eq!(value["token"], "a".repeat(64));
    assert!(open_credential(session, b"changed", &packet).is_err());
    packet[12] ^= 1;
    assert!(open_credential(session, b"context", &packet).is_err());
}

#[test]
fn sealed_messages_start_with_their_nonce() {
    let nonce = [9; 12];
    let packet = seal_touch_with(b"s", b"label", b"c", b"data", nonce).unwrap();
    assert!(packet.starts_with(&nonce));
    assert_eq!(packet.len(), 12 + 4 + 16);
    assert_ne!(&packet[12..16], b"data");
    assert_eq!(open_touch(b"s", b"label", b"c", &packet[..27]), Err(Error::TouchMessage));
    assert_eq!(open_touch(b"s", b"label", b"x", &packet), Err(Error::TouchAuthentication));
    let sealed = seal_credential(b"s", b"c", b"payload").unwrap();
    assert_eq!(sealed.len(), 12 + 7 + 16);
    let mut nonce = [0; 12];
    nonce.copy_from_slice(&sealed[..12]);
    assert_eq!(seal_credential_with(b"s", b"c", b"payload", nonce).unwrap(), sealed);
    assert_ne!(sealed, seal_credential(b"s", b"c", b"payload").unwrap());
    assert_eq!(open_credential(b"s", b"c", &sealed), Ok(b"payload".to_vec()));
    assert_eq!(open_credential(b"s", b"c", &sealed[..27]), Err(Error::CredentialResponse));
    assert_eq!(open_credential(b"t", b"c", &sealed), Err(Error::CredentialAuthentication));
}

/// The credential key is the documented HKDF output, computed here step by step.
#[test]
fn the_credential_key_is_derived_by_hkdf() {
    let secret = b"test session secret";
    let key = |secret: &[u8], info: &[u8]| {
        let salt = ring::hmac::Key::new(ring::hmac::HMAC_SHA256, b"TPAUTH01");
        let prk = ring::hmac::sign(&salt, secret);
        let expand = ring::hmac::Key::new(ring::hmac::HMAC_SHA256, prk.as_ref());
        let mut message = info.to_vec();
        message.push(1);
        ring::hmac::sign(&expand, &message)
    };
    let bytes = key(secret, b"teleport/password/device-credential/v1");
    let unbound =
        ring::aead::UnboundKey::new(&ring::aead::CHACHA20_POLY1305, bytes.as_ref()).unwrap();
    let mut data = b"payload".to_vec();
    ring::aead::LessSafeKey::new(unbound)
        .seal_in_place_append_tag(
            ring::aead::Nonce::assume_unique_for_key([3; 12]),
            ring::aead::Aad::from(b"context"),
            &mut data,
        )
        .unwrap();
    let mut expected = vec![3; 12];
    expected.extend_from_slice(&data);
    assert_eq!(
        seal_credential_with(secret, b"context", b"payload", [3; 12]).unwrap(),
        expected
    );
}

#[test]
fn answers_are_told_apart() {
    let mut packet = TOUCH_MAGIC.as_bytes().to_vec();
    assert_eq!(reply_kind(&packet), ReplyKind::Touch);
    let sealed = seal_touch(b"s", TOUCH_REQUEST.as_bytes(), b"c", b"challenge").unwrap();
    packet.extend_from_slice(&sealed);
    assert_eq!(reply_kind(&packet), ReplyKind::Touch);
    assert_eq!(open_challenge(b"s", b"c", &packet), Ok(b"challenge".to_vec()));
    assert_eq!(reply_kind(b"TPU2F00"), ReplyKind::Credential);
    assert_eq!(read_fingerprint("b".repeat(64).as_bytes()).unwrap(), "b".repeat(64));
    assert_eq!(read_fingerprint(&[255]), Err(Error::FingerprintText));
    assert_eq!(read_fingerprint(b"zz"), Err(Error::Fingerprint));
    assert_eq!(accept_credential(&legacy(), &"b".repeat(64)), Ok(()));
    assert_eq!(accept_credential(&legacy(), &"c".repeat(64)), Err(Error::HostIdentity));
}

#[test]
fn the_login_context_is_json() {
    let context = login_context(b"hi", "ff").unwrap();
    let value: serde_json::Value = serde_json::from_slice(&context).unwrap();
    let text = String::from_utf8(context).unwrap();
    assert!(value.is_array());
    assert!(text.contains("\"ff\""));
    assert_ne!(login_context(b"hi", "ff"), login_context(b"ho", "ff"));
    assert_ne!(login_context(b"hi", "ff"), login_context(b"hi", "fe"));
}

#[test]
fn system_tickets_are_single_session_expiring_revocable_and_memory_only() {
    let mut state = state();
    let generation = state.system_generation();
    let ticket = state.issue_system_session(generation).ok().unwrap();
    assert!(state.authorized(&ticket.token));
    let reopened = open(copy(&state.record));
    assert!(!reopened.authorized(&ticket.token));
    let lease = state.begin_session(&ticket.token).ok().unwrap();
    assert!(state.begin_session(&ticket.token).is_err());
    assert!(state.authorized(&ticket.token));
    state.end_session(lease);
    assert!(!state.authorized(&ticket.token));
    assert!(state.begin_session(&ticket.token).is_err());

    let expired = state.issue_system_session(generation).ok().unwrap();
    let hash = token_hash(&expired.token);
    for session in state.system_sessions.iter_mut() {
        if session.hash == hash {
            session.deadline = 0;
        }
    }
    assert!(!state.authorized(&expired.token));
    assert!(state.begin_session(&expired.token).is_err());
    let active = state.issue_system_session(generation).ok().unwrap();
    let _lease = state.begin_session(&active.token).ok().unwrap();
    state.revoke_all_devices().unwrap();
    assert!(!state.authorized(&active.token));
    assert!(state.issue_system_session(generation).is_err());
    let lease = state.begin_session(&legacy().token).ok().unwrap();
    state.end_session(lease);
    assert!(state.authorized(&legacy().token));
}

#[test]
fn persistent_rate_limit_and_revoke_generation() {
    let mut state = state();
    let ip = Address::V4(0x7F00_0001);
    for _ in 0..5 {
        state.attempt(ip).unwrap();
    }
    assert!(state.attempt(ip).is_err());
    for _ in 0..5 {
        state.attempt(Address::V4(0x7F00_0002)).unwrap();
    }
    let mut reopened = open(copy(&state.record));
    assert!(reopened.attempt(Address::V4(0x7F00_0003)).is_err());
    let generation = state.record.generation;
    state.revoke_all_devices().unwrap();
    assert!(state.issue(generation, "in-flight login").is_err());
    let code_device = state.enroll_device("one-time paired").ok().unwrap();
    let generation = state.record.generation;
    state.set_password("ej", "Another long passphrase!", vec![7]).unwrap();
    assert!(state.issue(generation, "stale-password login").is_err());
    assert!(state.authorized(&code_device.token));
    let generation = state.record.generation;
    state.disable_password().unwrap();
    assert!(state.issue(generation, "disabled-password login").is_err());
    assert!(state.authorized(&code_device.token));
    state.revoke_all_devices().unwrap();
    assert!(!state.authorized(&code_device.token));
    assert!(state.authorized(&legacy().token));
}

#[test]
fn password_devices_come_and_go() {
    let mut state = state();
    let generation = state.record.generation;
    let first = state.issue(generation, "work").ok().unwrap();
    let second = state.issue(generation, "other").ok().unwrap();
    assert_ne!(first.token, second.token);
    assert_eq!(first.fingerprint, legacy().fingerprint);
    assert!(state.authorized(&first.token) && state.authorized(&second.token));
    assert!(!state.authorized(&"f".repeat(64)));
    let reopened = open(copy(&state.record));
    assert!(reopened.authorized(&first.token));
    let id = state.status().devices[0].id.clone();
    state.revoke_device(&id).unwrap();
    assert_eq!(state.revoke_device(&id), Err(Error::DeviceNotFound));
    assert!(!state.authorized(&first.token));
    let generation = state.record.generation;
    assert!(state.authorized(&second.token));
    state.set_password("ej", "Replacement test passphrase!", vec![9]).unwrap();
    assert!(!state.authorized(&second.token));
    assert_eq!(state.issue(generation, "late").err(), Some(Error::LoginFailed));
    state.disable_password().unwrap();
    assert!(state.status().username.is_none());
    assert!(state.authorized(&legacy().token));
}

#[test]
fn device_slots_are_limited() {
    let mut state = state();
    for i in 0..MAX_DEVICES {
        assert!(state.enroll_device(&format!("device {i}")).is_ok());
    }
    assert_eq!(state.enroll_device("one more").err(), Some(Error::DeviceLimit));
    let generation = state.record.generation;
    assert_eq!(state.issue(generation, "x").err(), Some(Error::DeviceLimit));
    assert_eq!(state.status().devices.len(), MAX_DEVICES);
    state.revoke_all_devices().unwrap();
    assert_eq!(state.enroll_device("").err(), Some(Error::EnrollmentName));
}

#[test]
fn stored_records_are_checked() {
    let refused = |record, setup, registration, key| {
        ServerState::open(record, legacy(), setup, registration, key).err()
    };
    let mut record = fresh_record(vec![]);
    record.version = 7;
    assert_eq!(refused(record, true, true, true), Some(Error::AccessDatabase));
    assert_eq!(refused(fresh_record(vec![]), false, true, true), Some(Error::StoredSetup));
    let mut state = state();
    let generation = state.record.generation;
    assert!(state.issue(generation, "work").is_ok());
    let mut record = copy(&state.record);
    record.devices[0].token_hash.pop();
    assert_eq!(refused(record, true, true, true), Some(Error::StoredCredential));
}

#[test]
fn tickets_last_a_minute_and_are_few() {
    let mut state = state();
    let generation = state.system_generation();
    let token = "c".repeat(64);
    let ticket = state.issue_system_session_with(generation, 5, &token).ok().unwrap();
    assert_eq!(ticket.token, token);
    assert!(state.authorized_at(&token, TICKET_LIFETIME + 4));
    assert!(!state.authorized_at(&token, TICKET_LIFETIME + 6));
    for i in 1..MAX_TICKETS {
        let token = format!("{i:064}");
        assert!(state.issue_system_session_with(generation, 5, &token).is_ok());
    }
    let token = "d".repeat(64);
    assert!(state.issue_system_session_with(generation, 5, &token).is_err());
    assert!(state.issue_system_session_with(generation, TICKET_LIFETIME + 6, &token).is_ok());
    assert_eq!(
        state.begin_session_at(&"e".repeat(64), 5).err(),
        Some(Error::Unauthorized)
    );
}

#[test]
fn attempts_are_forgotten_after_a_minute() {
    let mut state = state();
    let ip = Address::V6(1);
    for _ in 0..5 {
        state.attempt_at(ip, 1000).unwrap();
    }
    assert_eq!(state.attempt_at(ip, 1059), Err(Error::LoginUnavailable));
    assert_eq!(state.attempt_at(Address::V6(2), 1059), Ok(()));
    assert_eq!(state.attempt_at(ip, 1061), Ok(()));
}

#[test]
fn a_security_key_can_be_required() {
    let mut state = open(fresh_record(vec![1]));
    assert_eq!(state.require_u2f(key(), true), Err(Error::PasswordFirst));
    state.set_password("ej", PASSWORD, vec![4]).unwrap();
    assert_eq!(state.require_u2f(key(), false), Err(Error::CredentialRefused));
    let generation = state.system_generation();
    let ticket = state.issue_system_session(generation).ok().unwrap();
    state.require_u2f(key(), true).unwrap();
    assert!(state.status().u2f_required);
    assert!(!state.system_login_allowed());
    assert!(!state.authorized(&ticket.token));
    let generation = state.record.generation;
    assert_eq!(state.accept_touch(generation, Some(1)), Ok(()));
    assert_eq!(state.accept_touch(generation, Some(1)), Err(Error::CounterStalled));
    assert_eq!(state.accept_touch(generation, Some(2)), Ok(()));
    assert_eq!(state.record.u2f_counter, 2);
    state.set_password("ej", "Changed password retains U2F!", vec![5]).unwrap();
    assert!(state.status().u2f_required);
    assert_eq!(state.accept_touch(generation, Some(3)), Err(Error::SettingsChanged));
    state.disable_u2f().unwrap();
    let generation = state.record.generation;
    assert_eq!(state.accept_touch(generation, Some(3)), Err(Error::KeySettingsChanged));
    assert!(!state.status().u2f_required);
    assert!(state.system_login_allowed());
}

/// Both ends of a login with a touch, with the password proof standing in as
/// a session key that both ends hold.
#[test]
fn a_login_with_a_touch_runs_through() {
    let mut state = state();
    state.require_u2f(key(), true).unwrap();
    let bytes = b"hello bytes".to_vec();
    let client = ClientLogin::start(&hello(true), bytes.clone(), PASSWORD).ok().unwrap();
    let opening = client.opening().unwrap();
    assert!(opening.starts_with(b"TPAUTH01"));
    assert!(opening.ends_with(&bytes));
    let server = Login::start().magic(b"TPAUTH01").ok().unwrap();
    let server = server.hello(&bytes, hello(true), &legacy().fingerprint).ok().unwrap();
    let client = client.fingerprint(legacy().fingerprint.as_bytes()).ok().unwrap();
    let (server, exchange) = server.exchange(&state).ok().unwrap();
    assert_eq!(exchange.setup, vec![1, 2, 3]);
    assert_eq!(exchange.registration, Some(vec![4, 5, 6]));
    let session = vec![42; 64];
    let server = server.proved(Some(session.clone())).ok().unwrap();
    let client = client.proved(Some(session)).ok().unwrap();
    let (server, asked) = server.challenge().ok().unwrap();
    assert_eq!(asked.id, vec![1, 2, 3]);
    let packet = server.seal_challenge(b"the challenge").unwrap();
    let (client, answer) = client.reply(&packet).ok().unwrap();
    assert!(matches!(answer, Answer::Challenge(bytes) if bytes == b"the challenge"));
    let (client, packet) = client.touched(b"assertion").ok().unwrap();
    assert_eq!(server.open_touch(&packet), Ok(b"assertion".to_vec()));
    let server = server.touched(&mut state, Some(1)).ok().unwrap();
    let (server, pairing) = server.issue(&mut state).ok().unwrap();
    assert!(state.authorized(&pairing.token));
    assert_eq!(state.status().devices[0].name, "work");
    let packet = server.seal(b"credential").unwrap();
    let (client, answer) = client.reply(&packet).ok().unwrap();
    assert!(matches!(answer, Answer::Credential(bytes) if bytes == b"credential"));
    assert_eq!(client.accept(&pairing), Ok(()));
}

#[test]
fn a_login_fails_closed() {
    let mut state = state();
    assert_eq!(Login::start().magic(b"TPAUTH02").err(), Some(Error::AccessProtocol));
    let begin = |u2f| {
        Login::start()
            .magic(b"TPAUTH01")
            .ok()
            .unwrap()
            .hello(b"bytes", hello(u2f), &legacy().fingerprint)
            .ok()
            .unwrap()
    };
    let (login, _) = begin(false).exchange(&state).ok().unwrap();
    assert_eq!(login.proved(None).err(), Some(Error::LoginFailed));
    let (login, _) = begin(false).exchange(&state).ok().unwrap();
    state.revoke_all_devices().unwrap();
    let login = login.proved(Some(vec![1; 64])).ok().unwrap();
    assert_eq!(login.issue(&mut state).err(), Some(Error::LoginFailed));
    state.require_u2f(key(), true).unwrap();
    let (login, _) = begin(false).exchange(&state).ok().unwrap();
    assert_eq!(login.proved(Some(vec![1; 64])).err(), Some(Error::UpdateClient));
    let mut other = hello(false);
    other.username = "unknown".to_string();
    let login = Login::start()
        .magic(b"TPAUTH01")
        .ok()
        .unwrap()
        .hello(b"bytes", other, &legacy().fingerprint)
        .ok()
        .unwrap();
    let (_, exchange) = login.exchange(&state).ok().unwrap();
    assert_eq!(exchange.registration, None);
}

#[test]
fn tokens_are_kept_as_hashes() {
    let hash = token_hash("abc");
    assert_eq!(hash.len(), 32);
    assert_eq!(
        hash,
        ring::digest::digest(&ring::digest::SHA256, b"abc").as_ref().to_vec()
    );
}
