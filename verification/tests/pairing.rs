use teleport::error::Error;
use teleport::pairing::{
    accept_credential, answer_exchange, check_magic, check_parts, code_from, consume,
    finish_exchange, frame_packet, fresh_code, is_plain_address, normalize, opening, packet_length,
    printable, start_exchange, validate_address, Keys, Listen, Offer, ATTEMPTS, CLIENT_SIDE,
    HOST_SIDE, LIFETIME, MAX_MESSAGE, MESSAGE, TIMEOUT,
};
use teleport::profiles::{
    self, check_pairing, check_private_file, directory, fresh_file_name, import, pairing_file_name,
    place, prepare_directory, save_pairing, temporary_extension, Location, PathFacts, Profile,
};
use teleport::protocol::Pairing;

#[test]
fn code_and_address_validation() {
    assert_eq!(normalize("123-456\n").unwrap(), "123456");
    for code in ["12345", "abcdef", "１２３４５６", "1234567"] {
        assert!(normalize(code).is_err());
    }
    for address in ["host", "host:123/a", "user@host:1", "host:2?x"] {
        assert!(validate_address(address).is_err());
    }
    assert!(validate_address("[::1]:4443").is_ok());
}

/// The keys of a client with one code and of a host with another, and what they said.
fn exchange(code: &str, other: &str) -> (Keys, Keys, Vec<u8>, Vec<u8>) {
    let (half, from_client) = start_exchange(code);
    let (from_host, host_keys) = answer_exchange(other, &from_client).ok().unwrap();
    let client_keys = finish_exchange(half, &from_client, &from_host).ok().unwrap();
    (client_keys, host_keys, from_client, from_host)
}

#[test]
fn authenticated_keys_reject_wrong_code_and_tampering() {
    let (ka, kb, from_a, from_b) = exchange("123456", "123456");
    kb.check(&ka.prove()).unwrap();
    let pairing = serde_json::Value::Object(
        [
            ("token".to_string(), serde_json::Value::String("a".repeat(64))),
            ("fingerprint".to_string(), serde_json::Value::String("b".repeat(64))),
        ]
        .into_iter()
        .collect(),
    );
    let payload = serde_json::to_vec(&pairing).unwrap();
    let mut encrypted = kb.seal(&payload).unwrap();
    let opened: serde_json::Value =
        serde_json::from_slice(&ka.open(&encrypted).unwrap()).unwrap();
    assert_eq!(opened["token"], pairing["token"]);
    encrypted[20] ^= 1;
    assert!(ka.open(&encrypted).is_err());
    let wrong = Keys::new(b"wrong key", &from_a, &from_b);
    assert!(wrong.open(&kb.seal(&payload).unwrap()).is_err());
}

#[test]
fn another_code_gives_other_keys() {
    let (ka, kb, _, _) = exchange("123456", "123457");
    assert_eq!(kb.check(&ka.prove()), Err(Error::PairingProof));
    assert_eq!(ka.open(&kb.seal(b"data").unwrap()), Err(Error::PairingAuthentication));
    assert_eq!(ka.open(&[0; 27]), Err(Error::PairingResponse));
    let sealed = ka.seal_with(b"data", [5; 12]).unwrap();
    assert!(sealed.starts_with(&[5; 12]));
    assert_eq!(sealed.len(), 12 + 4 + 16);
    assert_eq!(ka.open(&sealed), Ok(b"data".to_vec()));
    assert_eq!(ka.confirmation.len(), 32);
    assert_ne!(ka.confirmation, ka.encryption);
    assert_ne!(ka.prove(), ka.transcript);
}

/// Each end sends thirty-three bytes, and takes only what the other side could have
/// sent.
#[test]
fn exchange_messages_name_their_side() {
    let (ka, kb, from_client, from_host) = exchange("123456", "123456");
    assert_eq!(from_client.len(), MESSAGE);
    assert_eq!(from_host.len(), MESSAGE);
    assert_eq!((from_client[0], from_host[0]), (CLIENT_SIDE, HOST_SIDE));
    assert_eq!(ka.encryption, kb.encryption);
    assert_eq!(ka.confirmation, kb.confirmation);
    assert_eq!(ka.transcript, [&b"TPPAIR01"[..], &from_client, &from_host].concat());
    let refused = Some(Error::PairingExchange);
    assert_eq!(answer_exchange("123456", &from_host).err(), refused);
    assert_eq!(answer_exchange("123456", &from_client[..32]).err(), refused);
    assert_eq!(answer_exchange("123456", &[]).err(), refused);
    let (half, message) = start_exchange("123456");
    assert_eq!(finish_exchange(half, &message, &message).err(), refused);
    let (again, other) = start_exchange("123456");
    assert_ne!(message, other);
    assert_eq!(finish_exchange(again, &other, &[HOST_SIDE; 34]).err(), refused);
}

/// The proof is the HMAC of the transcript.
#[test]
fn the_proof_is_an_hmac() {
    let keys = Keys::new(b"shared", b"client", b"host");
    let key = ring::hmac::Key::new(ring::hmac::HMAC_SHA256, &keys.confirmation);
    assert_eq!(keys.prove(), ring::hmac::sign(&key, &keys.transcript).as_ref().to_vec());
    assert_eq!(keys.check(&keys.prove()), Ok(()));
    assert_eq!(keys.check(&[]), Err(Error::PairingProof));
}

#[test]
fn codes_are_six_digits() {
    assert_eq!(code_from(42), "000042");
    assert_eq!(code_from(999_999), "999999");
    assert_eq!(printable("123456"), "123-456");
    for _ in 0..50 {
        let code = fresh_code();
        assert_eq!(code.len(), 6);
        assert_eq!(normalize(&printable(&code)), Ok(code));
    }
    assert_eq!(normalize(" 1 2-3 4\t5 6 "), Ok("123456".to_string()));
    assert_eq!(normalize(""), Err(Error::PairingCode));
}

#[test]
fn addresses_name_a_host_and_a_port() {
    assert!(is_plain_address("a:1"));
    assert!(!is_plain_address("a:1/"));
    assert_eq!(validate_address("a:1#f"), Err(Error::HostPortOnly));
    assert_eq!(validate_address("host"), Err(Error::HostPortMissing));
    assert_eq!(validate_address("host:99999"), Err(Error::AddressSyntax));
    assert_eq!(validate_address("host:4443"), Ok(()));
    let missing = Error::HostPortMissing;
    assert_eq!(check_parts(&None, missing), Err(Error::AddressSyntax));
    assert_eq!(check_parts(&Some((None, Some(1))), missing), Err(missing));
    assert_eq!(check_parts(&Some((Some("a".to_string()), None)), missing), Err(missing));
    assert_eq!(check_parts(&Some((Some("a".to_string()), Some(1))), missing), Ok(()));
}

#[test]
fn pairing_messages_carry_their_length() {
    assert_eq!(frame_packet(b"ab"), Ok(vec![0, 2, b'a', b'b']));
    assert_eq!(frame_packet(&[0; 4097]), Err(Error::PairingTooLarge));
    assert_eq!(packet_length([0, 128], MAX_MESSAGE), Ok(128));
    assert_eq!(packet_length([0, 129], MAX_MESSAGE), Err(Error::PairingLength));
    assert_eq!(packet_length([0, 0], MAX_MESSAGE), Err(Error::PairingLength));
    assert_eq!(opening(b"m"), Ok(b"TPPAIR01\x00\x01m".to_vec()));
    assert_eq!(check_magic(b"TPPAIR01"), Ok(()));
    assert_eq!(check_magic(b"TPPAIR02"), Err(Error::PairingProtocol));
}

/// A code serves one pairing, for five minutes and five attempts.
#[test]
fn code_pairing_rejects_wrong_reuse_expiry_and_exhaustion() {
    let code = "123456";
    let mut epoch: u64 = 1;
    let (wrong, keys, _, _) = exchange("654321", code);
    assert_eq!(
        consume(&keys, &wrong.prove(), 0, 10, Some(1), &mut epoch),
        Err(Error::PairingProof)
    );
    let (right, keys, _, _) = exchange(code, code);
    let evidence = right.prove();
    assert_eq!(
        consume(&keys, &evidence, 11, 10, Some(1), &mut epoch),
        Err(Error::PairingExpired)
    );
    assert_eq!(epoch, 1);
    assert_eq!(consume(&keys, &evidence, 1, 10, Some(1), &mut epoch), Ok(()));
    assert_eq!(epoch, 2);
    assert_eq!(
        consume(&keys, &evidence, 1, 10, Some(1), &mut epoch),
        Err(Error::PairingReplaced)
    );
    let sealed = keys.seal(b"credential").unwrap();
    assert_eq!(right.open(&sealed), Ok(b"credential".to_vec()));
    let mut offer = Offer::new(0, LIFETIME);
    assert_eq!(offer.listen(LIFETIME), Listen::Expired);
    for _ in 0..ATTEMPTS {
        assert_eq!(offer.listen(1), Listen::Accept);
        assert_eq!(offer.begin(1), 1 + TIMEOUT);
        let (wrong, keys, _, _) = exchange("000000", code);
        assert_eq!(
            consume(&keys, &wrong.prove(), 1, LIFETIME, None, &mut epoch),
            Err(Error::PairingProof)
        );
        offer.end(false);
    }
    assert_eq!(epoch, 2);
    assert_eq!(offer.listen(1), Listen::Exhausted);
    let mut offer = Offer::new(0, LIFETIME);
    assert_eq!(offer.begin(LIFETIME - 1), LIFETIME);
    offer.end(true);
    assert_eq!(offer.listen(1), Listen::Used);
}

fn pairing(token: &str) -> Pairing {
    Pairing { token: token.to_string(), fingerprint: "bb".repeat(32) }
}

#[test]
fn credentials_are_checked() {
    assert_eq!(accept_credential(&pairing(&"aa".repeat(32))), Ok(()));
    assert_eq!(accept_credential(&pairing("bad")), Err(Error::PairingToken));
}

/// A later pairing with a host takes the place of an earlier one.
#[test]
fn verified_pairing_is_saved_privately_and_replaces_selected_host() {
    let mut profiles: Vec<Profile> = Vec::new();
    let address = "desktop.local:4443";
    let first = pairing(&"aa".repeat(32));
    let old =
        save_pairing(address, &first, &mut profiles, fresh_file_name()).ok().unwrap();
    let second = pairing(&"cc".repeat(32));
    let new =
        save_pairing(address, &second, &mut profiles, fresh_file_name()).ok().unwrap();
    assert_eq!(profiles.len(), 1);
    assert_eq!(profiles[0].pairing_file, new.pairing_file);
    assert_ne!(old.pairing_file, new.pairing_file);
    let refused = save_pairing(
        "https://desktop.local:4443",
        &second,
        &mut profiles,
        fresh_file_name(),
    );
    assert!(refused.is_err());
    let refused = save_pairing(address, &pairing("bad"), &mut profiles, fresh_file_name());
    assert!(refused.is_err());
    assert_eq!(profiles.len(), 1);
    assert_eq!(profiles[0].pairing_file, new.pairing_file);
}

#[test]
fn addresses_require_a_host_and_port_without_url_credentials() {
    for address in ["desktop.local:4443", "192.168.1.2:4443", "[::1]:4443"] {
        assert!(profiles::validate_address(address).is_ok(), "{address}");
    }
    for address in [
        "",
        "desktop.local",
        "user@desktop.local:4443",
        "desktop.local:4443/path",
        "desktop.local:4443?query",
        " desktop.local:4443",
    ] {
        assert!(profiles::validate_address(address).is_err(), "{address}");
    }
    assert_eq!(profiles::validate_address("a b:1"), Err(Error::ProfileAddress));
    assert_eq!(profiles::validate_address("desktop.local"), Err(Error::ProfilePort));
}

fn facts(directory: bool, file: bool, symlink: bool, length: u64, mode: u32) -> PathFacts {
    PathFacts { directory, file, symlink, length, mode }
}

/// Credentials are regular files that nobody else can read.
#[test]
fn refuses_symlinks_and_public_credentials() {
    assert_eq!(check_private_file(facts(false, true, false, 2, 0o100600)), Ok(()));
    assert_eq!(
        check_private_file(facts(false, true, false, 2, 0o100644)),
        Err(Error::CredentialPublic)
    );
    assert_eq!(
        check_private_file(facts(false, false, true, 2, 0o120777)),
        Err(Error::CredentialRegular)
    );
    assert_eq!(
        check_private_file(facts(false, true, false, 65537, 0o100600)),
        Err(Error::CredentialLarge)
    );
    assert_eq!(prepare_directory(None), Ok(()));
    assert_eq!(prepare_directory(Some(facts(true, false, false, 0, 0o40700))), Ok(()));
    assert_eq!(
        prepare_directory(Some(facts(false, false, true, 0, 0o120777))),
        Err(Error::ProfileDirectory)
    );
}

#[test]
fn profiles_have_a_place() {
    let home = |location| matches!(location, Ok(Location::Home(_)));
    let config = |location| matches!(location, Ok(Location::Config(_)));
    assert!(home(directory(true, false, false)));
    assert!(config(directory(true, true, false)));
    assert!(home(directory(true, true, true)));
    assert!(matches!(directory(false, false, false), Err(Error::HomeMissing)));
    assert_eq!(pairing_file_name(0xAB), "pairing-00000000000000ab.json");
    assert_ne!(fresh_file_name(), fresh_file_name());
    assert_eq!(temporary_extension(255), "255.tmp");
}

#[test]
fn imports_keep_other_hosts() {
    let mut profiles: Vec<Profile> = Vec::new();
    place(
        &mut profiles,
        Profile { address: "a:1".to_string(), pairing_file: "x".to_string() },
    );
    let good = pairing(&"aa".repeat(32));
    assert_eq!(check_pairing("b:1", &good), Ok(()));
    let file = facts(false, true, false, 2, 0o100600);
    assert!(import("b:1", file, &good, &mut profiles, "y".to_string()).is_ok());
    assert_eq!(profiles.len(), 2);
    assert_eq!(profiles[1].address, "b:1");
    let public = facts(false, true, false, 2, 0o100644);
    assert_eq!(
        import("c:1", public, &good, &mut profiles, "z".to_string()).err(),
        Some(Error::CredentialPublic)
    );
    assert_eq!(profiles.len(), 2);
    place(
        &mut profiles,
        Profile { address: "a:1".to_string(), pairing_file: "w".to_string() },
    );
    let files: Vec<&str> = profiles.iter().map(|p| p.pairing_file.as_str()).collect();
    assert_eq!(files, vec!["y", "w"]);
}
