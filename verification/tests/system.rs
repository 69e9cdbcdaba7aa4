use std::time::Instant;
use teleport::access::server::{fresh_record, ServerState};
use teleport::error::Error;
use teleport::protocol::Pairing;
use teleport::ssh_agent::{
    self, allowed, check_response, Reader, SocketDirectory,
};
use teleport::system_login::{
    self, check_login, check_magic, check_protocol, credentials, frame_length, read_reply, reply,
    write_frame,
};
use teleport::system_pam::{
    self, outcome, trusted_directory, validate_helper, validate_self_user, Account, Ended,
    HelperFacts, Process,
};

fn put(output: &mut Vec<u8>, value: &[u8]) {
    output.extend_from_slice(&(value.len() as u32).to_be_bytes());
    output.extend_from_slice(value);
}

fn signature() -> Vec<u8> {
    let key = b"test-key";
    let mut data = Vec::new();
    put(&mut data, &[42; 32]);
    data.push(50);
    put(&mut data, b"user");
    put(&mut data, b"ssh-connection");
    put(&mut data, b"publickey");
    data.push(1);
    put(&mut data, b"ssh-ed25519");
    put(&mut data, key);
    let mut request = vec![13];
    put(&mut request, key);
    put(&mut request, &data);
    request.extend_from_slice(&[0; 4]);
    request
}

#[test]
fn rejects_mutation_extensions_and_arbitrary_signatures() {
    assert!(allowed(&[11]));
    assert!(allowed(&signature()));
    for kind in [1, 7, 9, 17, 18, 19, 20, 21, 22, 23, 25, 26, 27] {
        assert!(!allowed(&[kind]));
    }
    assert!(!allowed(&[11, 0]));
    assert!(!allowed(&[13, 255, 255, 255, 255]));
    let mut arbitrary = vec![13];
    put(&mut arbitrary, b"key");
    put(&mut arbitrary, b"SSHSIG arbitrary signing denied");
    arbitrary.extend_from_slice(&[0; 4]);
    assert!(!allowed(&arbitrary));
    for length in 0..signature().len() {
        assert!(!allowed(&signature()[..length]));
    }
}

#[test]
fn agent_packets_are_bounded() {
    assert_eq!(ssh_agent::packet_length([0, 0, 0, 5]), Ok(5));
    assert_eq!(ssh_agent::packet_length([0, 1, 0, 0]), Ok(65536));
    assert_eq!(ssh_agent::packet_length([0, 1, 0, 1]), Err(Error::AgentPacketSize));
    assert_eq!(ssh_agent::packet_length([0, 0, 0, 0]), Err(Error::AgentPacketSize));
    assert_eq!(ssh_agent::frame_packet(&[7]), Ok(vec![0, 0, 0, 1, 7]));
    assert_eq!(ssh_agent::frame_packet(&[]), Err(Error::AgentPacketSize));
    assert_eq!(ssh_agent::check_size(65537), Err(Error::AgentPacketSize));
    assert_eq!(ssh_agent::failure(), vec![5]);
}

#[test]
fn agent_answers_fit_their_requests() {
    assert_eq!(check_response(&[11], &[12, 0]), Ok(()));
    assert_eq!(check_response(&[13], &[14, 0]), Ok(()));
    assert_eq!(check_response(&[11], &[5]), Ok(()));
    assert_eq!(check_response(&[11], &[14, 0]), Err(Error::AgentResponse));
    assert_eq!(ssh_agent::check_peer(1, 1), Ok(()));
    assert_eq!(ssh_agent::check_peer(1, 2), Err(Error::AgentPeer));
    assert_eq!(ssh_agent::check_owner(1, 2), Err(Error::AgentOwner));
    assert_eq!(ssh_agent::agent_path(None, true), Err(Error::AgentSocketMissing));
    assert_eq!(
        ssh_agent::agent_path(Some("/x".to_string()), false),
        Err(Error::AgentSocketKind)
    );
    assert_eq!(ssh_agent::agent_path(Some("/x".to_string()), true), Ok("/x".to_string()));
    let mut reader = Reader::new();
    assert_eq!(reader.advance(), Ok(()));
    assert_eq!(reader.sequence, 1);
    reader.sequence = u64::MAX;
    assert_eq!(reader.advance(), Err(Error::AgentSequence));
    assert_eq!(Reader::check_group(None, false), Err(Error::AgentEmptyGroup));
    assert_eq!(Reader::check_group(Some(&[]), false), Err(Error::AgentEmptyPacket));
    assert_eq!(Reader::check_group(Some(&[1]), true), Err(Error::AgentExtraFrame));
    assert_eq!(Reader::check_group(Some(&[1]), false), Ok(()));
}

/// A socket that was replaced is left alone.
#[test]
fn cleanup_preserves_replaced_socket() {
    let mut directory = SocketDirectory::named(0xAB);
    assert!(directory.path.ends_with("ab"));
    assert!(directory.socket().starts_with(&directory.path));
    assert!(!directory.still_ours(Some((1, 2))));
    directory.remember_socket(1, 2);
    assert!(directory.still_ours(Some((1, 2))));
    assert!(!directory.still_ours(Some((1, 3))));
    assert!(!directory.still_ours(None));
    assert_ne!(SocketDirectory::create().path, SocketDirectory::create().path);
}

#[test]
fn credential_frames_are_bounded_and_borrowed() {
    let bytes = system_login::request("ej", "a secure password").unwrap();
    assert_eq!(credentials(&bytes).unwrap(), ("ej", "a secure password"));
    for bytes in [&[][..], &[0], &[0, 99, b'a'], &[0, 1, 255, b'x']] {
        assert!(credentials(bytes).is_err());
    }
    for (username, password) in [("", "x"), ("ej", ""), ("ej\0", "x"), ("ej", "x\0")] {
        assert!(system_login::request(username, password).is_err());
    }
    assert!(system_login::request(&"u".repeat(257), "x").is_err());
    assert!(system_login::request("ej", &"p".repeat(2049)).is_err());
}

/// Lengths outside the limits are refused before anything is read.
#[test]
fn framing_rejects_lengths_before_allocation() {
    for size in [0u32, 4097, u32::MAX] {
        assert_eq!(frame_length(size.to_be_bytes()), Err(Error::SystemFrame));
    }
    assert_eq!(frame_length([0, 0, 0, 2]), Ok(2));
    assert_eq!(write_frame(&[0; 4097]), Err(Error::SystemFrame));
    assert_eq!(write_frame(&[9, 8]), Ok(vec![0, 0, 0, 2, 9, 8]));
}

#[test]
fn system_replies_are_checked() {
    let pairing = Pairing { token: "a".repeat(64), fingerprint: "b".repeat(64) };
    let bytes = reply(Ok(pairing.clone())).unwrap();
    assert_eq!(bytes.len(), system_login::REPLY);
    assert_eq!(bytes[0], 1);
    let read = read_reply(&bytes, &"b".repeat(64)).ok().unwrap();
    assert_eq!(read.token, pairing.token);
    assert_eq!(read_reply(&bytes, &"c".repeat(64)).err(), Some(Error::SystemIdentity));
    let refused = reply(Err(Error::LoginFailed)).unwrap();
    assert!(read_reply(&refused, &"b".repeat(64)).is_err());
    assert_eq!(read_reply(&[1], &"b".repeat(64)).err(), Some(Error::SystemLoginFailed));
    let answer = |token: &[u8], fingerprint: &[u8]| {
        let mut bytes = vec![1];
        bytes.extend_from_slice(token);
        bytes.extend_from_slice(fingerprint);
        read_reply(&bytes, &"b".repeat(64)).err()
    };
    assert_eq!(answer(&[0xFF; 64], &[b'b'; 64]), Some(Error::SystemReplyText));
    assert_eq!(answer(&[b'a'; 64], &[0xFF; 64]), Some(Error::SystemReplyText));
    assert_eq!(answer(&[b'z'; 64], &[b'b'; 64]), Some(Error::SystemCredential));
    assert_eq!(answer(&[b'a'; 64], &[b'z'; 64]), Some(Error::Fingerprint));
    assert_eq!(answer(&[b'a'; 64], &[b'B'; 64]), None);
    assert_eq!(credentials(&[0, 1, 0xFF, b'p']).err(), Some(Error::SystemReplyText));
    assert_eq!(credentials(&[0, 9, b'e']).err(), Some(Error::SystemCredentials));
    assert_eq!(check_magic(b"TPSYS001"), Ok(()));
    assert_eq!(check_magic(b"TPSYS002"), Err(Error::SystemProtocol));
    assert_eq!(check_protocol(Some(b"teleport-system-login/1")), Ok(()));
    assert_eq!(check_protocol(None), Err(Error::SystemProtocol));
    assert_eq!(check_login("ej", "secret", &"b".repeat(64)), Ok(()));
    assert_eq!(check_login("", "secret", &"b".repeat(64)), Err(Error::SystemCredentials));
}

#[test]
fn a_system_login_ends_in_a_ticket() {
    let legacy = Pairing { token: "a".repeat(64), fingerprint: "b".repeat(64) };
    let mut access = ServerState::open(fresh_record(vec![1]), legacy, true, true, true).ok().unwrap();
    access.origin = Instant::now();
    let generation = system_login::begin(&access).unwrap();
    assert!(system_login::finish(&mut access, generation, false).is_err());
    let ticket = system_login::finish(&mut access, generation, true).ok().unwrap();
    assert!(access.authorized(&ticket.token));
    access.revoke_all_devices().unwrap();
    assert!(!access.authorized(&ticket.token));
    assert!(system_login::finish(&mut access, generation, true).is_err());
}

#[test]
fn root_owned_sticky_store_ancestors_are_safe() {
    assert!(trusted_directory(0, 0o1775));
    assert!(trusted_directory(0, 0o755));
    assert!(!trusted_directory(0, 0o775));
    assert!(!trusted_directory(1000, 0o1755));
    assert!(!trusted_directory(1000, 0o755));
}

#[test]
fn rejects_invalid_credentials_and_encodes_lengths() {
    assert!(system_pam::request("ej", "").is_err());
    assert!(system_pam::request("root\0ej", "secret").is_err());
    assert!(system_pam::request("ej", "pass\0word").is_err());
    assert!(system_pam::request("ej", &"a".repeat(4097)).is_err());
    let frame = system_pam::request("ej", "example").unwrap();
    assert_eq!(&frame[..16], b"TPAM0001\0\0\0\x02\0\0\0\x07");
    assert_eq!(&frame[16..], b"ejexample");
}

/// The account is looked up beforehand; `root` and an unknown name are refused.
#[test]
fn rejects_root_and_unknown_account_without_pam() {
    let user = Process { uid: 1000, effective_uid: 1000, gid: 100, effective_gid: 100 };
    let account = |uid, name: &[u8]| Some(Account { uid, name: Some(name.to_vec()) });
    assert!(validate_self_user("root", user, &account(0, b"root")).is_err());
    assert!(
        validate_self_user("teleport-account-that-must-not-exist-9842983", user, &None).is_err()
    );
    assert_eq!(validate_self_user("ej", user, &account(1000, b"ej")), Ok(()));
    assert_eq!(validate_self_user("ej", user, &account(1001, b"ej")), Err(Error::AccountOwner));
    assert_eq!(validate_self_user("ej", user, &account(1000, b"je")), Err(Error::AccountAlias));
    assert_eq!(validate_self_user("ej", user, &None), Err(Error::AccountUnavailable));
    let root = Process { uid: 0, effective_uid: 0, gid: 0, effective_gid: 0 };
    assert_eq!(validate_self_user("root", root, &account(0, b"root")), Err(Error::PrivilegedHost));
}

/// Only a helper that the administrator installed is run.
#[test]
fn helper_must_be_administrator_installed() {
    let good = HelperFacts { file: true, uid: 0, mode: 0o100755 };
    assert_eq!(validate_helper(true, good, &[(0, 0o755)]), Ok(()));
    assert_eq!(validate_helper(false, good, &[]), Err(Error::HelperRelative));
    let mine = HelperFacts { file: true, uid: 1000, mode: 0o100755 };
    assert_eq!(validate_helper(true, mine, &[]), Err(Error::HelperFile));
    let setuid = HelperFacts { file: true, uid: 0, mode: 0o104755 };
    assert_eq!(validate_helper(true, setuid, &[]), Err(Error::HelperFile));
    assert_eq!(
        validate_helper(true, good, &[(0, 0o755), (1000, 0o755)]),
        Err(Error::HelperDirectory)
    );
}

/// Every end of the worker but the agreed answer counts as a refusal.
#[test]
fn worker_failure_and_timeout_are_closed() {
    let exited = |output: &[u8], success| Ended::Exited { output: output.to_vec(), success };
    assert_eq!(outcome(&exited(b"OK\n", true)), Ok(()));
    for ended in [exited(b"NO\n", true), exited(b"OK\n", false), exited(b"OK\nx", true)] {
        assert_eq!(outcome(&ended), Err(Error::SystemAuthentication));
    }
    assert_eq!(outcome(&Ended::TimedOut), Err(Error::SystemAuthenticationTimeout));
}
