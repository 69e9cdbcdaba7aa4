//! Codes, keys, files and accounts: what a credential is made of, and what is checked
//! before one is trusted.
use crate::access::client::{Answer, ClientLogin, Phase as ClientPhase};
use crate::clock::later;
use crate::crypto;
use crate::error::Error;
use crate::host::{even, session_path};
use crate::identity::{
    base64_of, identity_refused, identity_with, named, pem_text, plan_of, wrapped, written,
    FileFacts, NewFile, NewIdentity, Plan,
};
use crate::pairing::{
    address_url, code_valid, complete, consumed, exchange_code, exchange_names, normalized,
    plain_address, plays_client, plays_host, printed, released, sent, transcript_of, Half, Keys,
    Listen, Offer,
};
use crate::profiles::{file_name, private, PathFacts};
use crate::protocol::Pairing;
use crate::security_key::{
    assertion_shape, enrols, lower, lowered, pin_form, relying_party_of, selected, verifies,
    Credential, Device, Verification,
};
use crate::system_login;
use crate::system_pam::{self, directory_trusted, Account, HelperFacts, Process};
use crate::text;
use crate::wire;
use vstd::prelude::*;
use vstd::utf8::encode_utf8;

verus! {

// ------------------------------------------------------------------ permissions

/// None of the nine permission bits from this one down is set for anybody but the owner.
pub open spec fn closed_to_others(mode: u32) -> bool {
    &&& mode & 0o040 == 0 && mode & 0o020 == 0 && mode & 0o010 == 0
    &&& mode & 0o004 == 0 && mode & 0o002 == 0 && mode & 0o001 == 0
}

/// Files and directories are private where neither the group nor anyone else may read,
/// write or execute them.
pub proof fn private_is_closed_to_others(mode: u32, facts: FileFacts, path: PathFacts)
    ensures
        private(mode) <==> closed_to_others(mode),
        facts.private() <==> closed_to_others(facts.mode),
        facts.owned() <==> facts.owner == facts.user,
        path.credential() <==> path.file && !path.symlink && path.length <= 65536
            && closed_to_others(path.mode),
{
    let a = facts.mode;
    let b = path.mode;
    assert((mode & 0o077 == 0) == (mode & 0o040 == 0 && mode & 0o020 == 0 && mode & 0o010 == 0
        && mode & 0o004 == 0 && mode & 0o002 == 0 && mode & 0o001 == 0)) by (bit_vector);
    assert((a & 0o077 == 0) == (a & 0o040 == 0 && a & 0o020 == 0 && a & 0o010 == 0 && a & 0o004 == 0
        && a & 0o002 == 0 && a & 0o001 == 0)) by (bit_vector);
    assert((b & 0o077 == 0) == (b & 0o040 == 0 && b & 0o020 == 0 && b & 0o010 == 0 && b & 0o004 == 0
        && b & 0o002 == 0 && b & 0o001 == 0)) by (bit_vector);
}

/// A file that is no credential is refused for the first of these: it is no plain file,
/// it is too long, others may use it.
pub proof fn why_a_file_is_refused(path: PathFacts)
    requires
        !path.credential(),
    ensures
        path.refusal() == Error::CredentialRegular <==> !path.file || path.symlink,
        path.refusal() == Error::CredentialLarge <==> path.file && !path.symlink && path.length
            > 65536,
        path.refusal() == Error::CredentialPublic <==> path.file && !path.symlink && path.length
            <= 65536 && !closed_to_others(path.mode),
{
    private_is_closed_to_others(
        path.mode,
        FileFacts { owner: 0, user: 0, regular: false, directory: false, mode: 0 },
        path,
    );
}

/// The helper is a file of root's that somebody may execute, that nobody else may write,
/// and that takes on no other user or group; the directories above it are root's and not
/// writable by others, or sticky.
pub proof fn a_helper_is_roots(facts: HelperFacts, uid: u32, mode: u32)
    ensures
        facts.trusted() <==> facts.file && facts.uid == 0 && facts.mode & 0o020 == 0 && facts.mode
            & 0o002 == 0 && facts.mode & 0o4000 == 0 && facts.mode & 0o2000 == 0 && (facts.mode
            & 0o100 != 0 || facts.mode & 0o010 != 0 || facts.mode & 0o001 != 0),
        directory_trusted(uid, mode) <==> uid == 0 && (mode & 0o1000 != 0 || mode & 0o020 == 0
            && mode & 0o002 == 0),
{
    let m = facts.mode;
    assert((m & 0o6022 == 0) == (m & 0o020 == 0 && m & 0o002 == 0 && m & 0o4000 == 0 && m & 0o2000
        == 0)) by (bit_vector);
    assert((m & 0o111 != 0) == (m & 0o100 != 0 || m & 0o010 != 0 || m & 0o001 != 0))
        by (bit_vector);
    assert((mode & 0o022 == 0) == (mode & 0o020 == 0 && mode & 0o002 == 0)) by (bit_vector);
}

// ------------------------------------------------------------------- identities

/// A new identity's key, certificate and token stand in the files of their names, and
/// every file has one of them.
pub proof fn files_hold_what_their_names_say(made: NewIdentity, key: Seq<u8>, certificate: Seq<u8>)
    ensures
        written(made).len() == 3,
        written(made).contains(("key.pem"@, made.key@)),
        written(made).contains(("certificate.pem"@, made.certificate@)),
        written(made).contains(("token"@, made.token@)),
        made.holds(key, certificate) <==> made.key@ == pem_text("PRIVATE KEY"@, base64_of(key))
            && made.certificate@ == pem_text("CERTIFICATE"@, base64_of(certificate)),
{
    assert(written(made)[0] == ("key.pem"@, made.key@));
    assert(written(made)[1] == ("certificate.pem"@, made.certificate@));
    assert(written(made)[2] == ("token"@, made.token@));
}

/// An identity names its files, and has the token that was read.
pub proof fn an_identity_names_its_files(token: Seq<char>)
    ensures
        identity_with(token).certificate == "certificate.pem"@,
        identity_with(token).key == "key.pem"@,
        identity_with(token).pairing == "pairing.json"@,
        identity_with(token).token == token,
{
}

/// An identity is made where none of its files and no pairing is there, and used where
/// all three are.
pub proof fn when_an_identity_is_made(certificate: bool, key: bool, token: bool, pairing: bool)
    ensures
        ({
            let found = (if certificate {
                1int
            } else {
                0
            }) + (if key {
                1int
            } else {
                0
            }) + (if token {
                1int
            } else {
                0
            });
            let plan = plan_of(certificate, key, token, pairing);
            &&& plan == Ok::<Plan, Error>(Plan::Create) <==> found == 0 && !pairing
            &&& plan == Ok::<Plan, Error>(Plan::Reuse) <==> found == 3
            &&& plan == Err::<Plan, Error>(Error::OrphanPairing) <==> found == 0 && pairing
            &&& plan == Err::<Plan, Error>(Error::IncompleteIdentity) <==> 0 < found < 3
        }),
{
}

/// The characters without the ends of lines.
pub open spec fn unwrapped(chars: Seq<char>) -> Seq<char> {
    chars.filter(|c: char| c != '\n')
}

proof fn wrapping_adds_line_ends_only(chars: Seq<char>)
    requires
        forall|i: int| 0 <= i < chars.len() ==> #[trigger] chars[i] != '\n',
    ensures
        unwrapped(wrapped(chars)) == chars,
    decreases chars.len(),
{
    let plain = |c: char| c != '\n';
    if chars.len() == 0 {
        reveal(Seq::filter);
        assert(unwrapped(wrapped(chars)) =~= chars);
    } else if chars.len() <= 64 {
        reveal(Seq::filter);
        assert(chars.push('\n').drop_last() =~= chars);
        crate::lists::filter_all(chars, plain);
    } else {
        let head = chars.take(64);
        let rest = chars.skip(64);
        assert forall|i: int| 0 <= i < rest.len() implies #[trigger] rest[i] != '\n' by {
            assert(rest[i] == chars[i + 64]);
        }
        assert forall|i: int| 0 <= i < head.len() implies plain(#[trigger] head[i]) by {
            assert(head[i] == chars[i]);
        }
        wrapping_adds_line_ends_only(rest);
        let line = head.push('\n');
        assert(line.filter(plain) == head) by {
            reveal(Seq::filter);
            assert(line.drop_last() =~= head);
            crate::lists::filter_all(head, plain);
        }
        filter_of_sum(line, wrapped(rest), plain);
        assert(head + rest =~= chars);
    }
}

proof fn filter_of_sum(a: Seq<char>, b: Seq<char>, keep: spec_fn(char) -> bool)
    ensures
        (a + b).filter(keep) == a.filter(keep) + b.filter(keep),
    decreases b.len(),
{
    reveal(Seq::filter);
    if b.len() == 0 {
        assert(a + b =~= a);
        assert(a.filter(keep) + b.filter(keep) =~= a.filter(keep));
    } else {
        assert((a + b).drop_last() =~= a + b.drop_last());
        assert((a + b).last() == b.last());
        filter_of_sum(a, b.drop_last(), keep);
        assert((a + b).filter(keep) =~= a.filter(keep) + b.filter(keep));
    }
}

/// A PEM file is the text between its marks, broken into lines and otherwise as it was.
pub proof fn a_pem_file_holds_its_text(label: Seq<char>, encoded: Seq<char>)
    requires
        forall|i: int| 0 <= i < encoded.len() ==> #[trigger] encoded[i] != '\n',
    ensures
        ({
            let file = pem_text(label, encoded);
            let begin = "-----BEGIN "@ + label + "-----\n"@;
            let end = "-----END "@ + label + "-----\n"@;
            &&& file.take(begin.len() as int) == begin
            &&& file.skip(file.len() - end.len()) == end
            &&& unwrapped(
                file.subrange(begin.len() as int, (file.len() - end.len()) as int),
            ) == encoded
        }),
{
    let file = pem_text(label, encoded);
    let begin = "-----BEGIN "@ + label + "-----\n"@;
    let end = "-----END "@ + label + "-----\n"@;
    assert(file =~= begin + wrapped(encoded) + end);
    assert(file.take(begin.len() as int) =~= begin);
    assert(file.skip(file.len() - end.len()) =~= end);
    assert(file.subrange(begin.len() as int, (file.len() - end.len()) as int) =~= wrapped(encoded));
    wrapping_adds_line_ends_only(encoded);
}

/// No line of a PEM file's text is longer than sixty-four characters.
pub proof fn pem_lines_are_short(chars: Seq<char>, start: int)
    requires
        0 <= start,
        start + 65 <= wrapped(chars).len(),
    ensures
        exists|i: int| start <= i < start + 65 && #[trigger] wrapped(chars)[i] == '\n',
    decreases chars.len(),
{
    let all = wrapped(chars);
    if chars.len() > 64 {
        if start <= 64 {
            assert(all[64] == '\n');
        } else {
            let rest = wrapped(chars.skip(64));
            pem_lines_are_short(chars.skip(64), start - 65);
            let i = choose|i: int| start - 65 <= i < start && #[trigger] rest[i] == '\n';
            assert(all[i + 65] == rest[i]);
        }
    } else if chars.len() > 0 {
        assert(all[chars.len() as int] == '\n');
    }
}

// ---------------------------------------------------------------------- pairing

/// What a user enters may have hyphens and ASCII white space anywhere, and nothing else
/// is left out.
pub proof fn entered_codes(a: Seq<char>, c: char)
    ensures
        normalized(Seq::empty()) == Seq::<char>::empty(),
        c == '-' || c == ' ' || c == '\t' || c == '\n' || c == '\r' || c == '\u{c}' ==> normalized(
            a.push(c),
        ) == normalized(a),
        !(c == '-' || c == ' ' || c == '\t' || c == '\n' || c == '\r' || c == '\u{c}')
            ==> normalized(a.push(c)) == normalized(a).push(c),
{
    reveal(Seq::filter);
    assert(a.push(c).drop_last() =~= a);
    assert(a.push(c).last() == c);
    assert(normalized(Seq::empty()) =~= Seq::<char>::empty());
}

/// A code is shown in two groups of three, all its digits in their order.
pub proof fn shown_codes(code: Seq<char>, i: int)
    requires
        code.len() == 6,
    ensures
        printed(code).len() == 7,
        printed(code)[3] == '-',
        0 <= i < 3 ==> printed(code)[i] == code[i] && printed(code)[i + 4] == code[i + 3],
{
    reveal_strlit("-");
}

/// An address has no part of a URL but host and port.
pub proof fn plain_addresses(
    address: Seq<char>,
    parts: Option<(Option<Seq<char>>, Option<u16>)>,
    i: int,
)
    ensures
        plain_address(address) ==> address.len() > 0 && (0 <= i < address.len() ==> address[i]
            != '/' && address[i] != '@' && address[i] != '?' && address[i] != '#'
            && !text::white_space(address[i])),
        address.len() > 0 && (forall|k: int|
            0 <= k < address.len() ==> #[trigger] address[k] != '/' && address[k] != '@'
                && address[k] != '?' && address[k] != '#' && !text::white_space(address[k]))
            ==> plain_address(address),
        complete(parts) <==> (parts matches Some((host, port)) && host is Some && port is Some),
        address_url(address) == "moqt://"@ + address,
{
    if 0 <= i < address.len() {
        assert(address.contains(address[i]));
    }
}

/// The keys of an exchange rest on the secret and on all that was said, the client's
/// message first; one label is for the client's proof and another for the credential.
pub proof fn keys_of_an_exchange(
    keys: Keys,
    shared: Seq<u8>,
    client: Seq<u8>,
    host: Seq<u8>,
    packet: Seq<u8>,
)
    requires
        keys.are(shared, client, host),
    ensures
        ({
            let said = encode_utf8("TPPAIR01"@) + client + host;
            let salt = crypto::sha256_of(said);
            let proof_key = crypto::hkdf_sha256_of(
                salt,
                shared,
                encode_utf8("teleport/client-confirm/v1"@),
            );
            let seal_key = crypto::hkdf_sha256_of(
                salt,
                shared,
                encode_utf8("teleport/host-credential/v1"@),
            );
            &&& transcript_of(client, host) == said
            &&& keys.transcript@ == said
            &&& keys.confirmation@ == proof_key
            &&& keys.encryption@ == seal_key
            &&& keys.proof_of() == crypto::hmac_sha256_of(proof_key, said)
            &&& packet.len() >= 28 ==> keys.opened(packet) == crypto::aead_opened(
                seal_key,
                packet.subrange(0, 12),
                said,
                packet.subrange(12, packet.len() as int),
            )
            &&& packet.len() < 28 ==> keys.opened(packet) is None
        }),
{
    if packet.len() >= 28 {
        assert(packet.subrange(0, 12) =~= packet.take(12));
        assert(packet.subrange(12, packet.len() as int) =~= packet.skip(12));
    }
}

/// A credential is released for the right proof, before the deadline, and where the code
/// is still the one that is offered.
pub proof fn when_a_credential_is_released(
    keys: Keys,
    evidence: Seq<u8>,
    now: u128,
    deadline: u128,
    generation: u64,
    epoch: u64,
)
    ensures
        released(keys, evidence, now, deadline, None, epoch) <==> evidence
            == crypto::hmac_sha256_of(keys.confirmation@, keys.transcript@) && deadline > now,
        released(keys, evidence, now, deadline, Some(generation), epoch) <==> evidence
            == crypto::hmac_sha256_of(keys.confirmation@, keys.transcript@) && deadline > now
            && epoch == generation,
{
}

/// A moment later is later by the span, unless time has run out.
pub proof fn later_is_later(now: u128, span: u128)
    ensures
        now + span <= u128::MAX ==> later(now, span) - now == span,
        now + span > u128::MAX ==> later(now, span) == u128::MAX,
{
}

/// The file of a credential is named after its number, with the sixteen digits of it.
pub proof fn files_are_named_after_numbers(n: u64)
    ensures
        file_name(n).len() == 8 + 16 + 5,
        file_name(n).take(8) == "pairing-"@,
        file_name(n).subrange(8, 24) == text::number_hex(n),
        file_name(n).skip(24) == ".json"@,
{
    reveal_strlit("pairing-");
    reveal_strlit(".json");
    assert(file_name(n).take(8) =~= "pairing-"@);
    assert(file_name(n).subrange(8, 24) =~= text::number_hex(n));
    assert(file_name(n).skip(24) =~= ".json"@);
}

/// A client asks for its session where the host expects that.
pub proof fn sessions_are_asked_for_by_token(address: Seq<char>, token: Seq<char>, other: Seq<char>)
    ensures
        "moqt://"@ + address + "/teleport/"@ + token == "moqt://"@ + address + session_path(token),
        session_path(token) == session_path(other) ==> token == other,
{
    assert("moqt://"@ + address + "/teleport/"@ + token =~= "moqt://"@ + address + session_path(
        token,
    ));
    if session_path(token) == session_path(other) {
        let n = "/teleport/"@.len() as int;
        assert(token =~= session_path(token).skip(n));
        assert(other =~= session_path(other).skip(n));
    }
}

/// The even number is the number or the one before it.
pub proof fn even_numbers(n: int)
    ensures
        even(n) % 2 == 0,
        even(n) <= n < even(n) + 2,
{
}

// --------------------------------------------------------------- security keys

/// Capital letters become small ones, and nothing else changes.
pub proof fn small_letters(chars: Seq<char>, i: int)
    requires
        0 <= i < chars.len(),
    ensures
        lowered(chars).len() == chars.len(),
        'A' <= chars[i] <= 'Z' ==> lowered(chars)[i] as int - 'a' as int == chars[i] as int
            - 'A' as int,
        !('A' <= chars[i] <= 'Z') ==> lowered(chars)[i] == chars[i],
{
    let c = chars[i];
    assert(lowered(chars)[i] == lower(c));
    if 'A' <= c <= 'Z' {
        assert(lower(c) as u32 == c as u32 + 32);
    }
}

/// The relying party of a host is a name below an invalid domain that holds the whole
/// fingerprint, in two labels of half of it each.
pub proof fn relying_parties_hold_the_fingerprint(fingerprint: Seq<char>)
    requires
        fingerprint.len() == 64,
    ensures
        ({
            let rp = relying_party_of(fingerprint);
            &&& rp.len() == 2 + 32 + 1 + 32 + 17
            &&& rp.take(2) == "f-"@
            &&& rp.subrange(2, 34) + rp.subrange(35, 67) == lowered(fingerprint)
            &&& rp[34] == '.'
            &&& rp.skip(67) == ".teleport.invalid"@
        }),
{
    reveal_strlit("f-");
    reveal_strlit(".");
    reveal_strlit(".teleport.invalid");
    let rp = relying_party_of(fingerprint);
    assert(rp.take(2) =~= "f-"@);
    assert(rp.subrange(2, 34) + rp.subrange(35, 67) =~= lowered(fingerprint));
    assert(rp.skip(67) =~= ".teleport.invalid"@);
}

/// A credential is of the first version, of ECDSA on P-256, and verifies its user; it
/// names the host that it is for, and has a number and a key of the right length.
pub proof fn what_makes_a_credential(credential: Credential, expected: Seq<char>)
    ensures
        credential.policy() <==> credential.version == 1 && credential.algorithm == -7
            && credential.uv_required,
        credential.bound_to(expected) <==> credential.fingerprint@ == lowered(expected)
            && credential.rp@ == relying_party_of(expected),
        credential.shape() <==> credential.id@.len() > 0 && credential.id@.len() <= 4096
            && credential.public_key@.len() == 64,
{
}

/// Whatever two credentials say, they are the same where they say the same.
pub proof fn same_credentials(a: Credential, b: Credential)
    requires
        a.same(b),
    ensures
        a.version == b.version,
        a.fingerprint@ == b.fingerprint@,
        a.rp@ == b.rp@,
        a.id@ == b.id@,
        a.public_key@ == b.public_key@,
        a.algorithm == b.algorithm,
        a.uv_required == b.uv_required,
{
}

/// The lengths of what a key returns, and of a PIN.
pub proof fn lengths_of_what_a_key_returns(
    hash: nat,
    data: nat,
    signature: nat,
    key: nat,
    pin: Seq<u8>,
    i: int,
)
    ensures
        assertion_shape(hash, data, signature, key) <==> hash == 32 && data >= 37 && data <= 8192
            && signature > 0 && signature <= 1024 && key == 64,
        pin_form(pin) ==> pin.len() > 0 && pin.len() < 256 && (0 <= i < pin.len() ==> pin[i] != 0),
        pin.len() > 0 && pin.len() < 256 && (forall|k: int|
            0 <= k < pin.len() ==> #[trigger] pin[k] != 0) ==> pin_form(pin),
{
    if 0 <= i < pin.len() {
        assert(pin.contains(pin[i]));
    }
}

// ---------------------------------------------------------------- system accounts

/// An account is checked where it is the one that the host runs as, under its own name,
/// and the host is an ordinary user and nobody else at the same time.
pub proof fn only_the_own_account_is_checked(
    username: Seq<char>,
    process: Process,
    account: Option<Account>,
)
    ensures
        system_pam::complaint(username, process, account) is None <==> {
            &&& 0 < encode_utf8(username).len() <= 256
            &&& !username.contains('\0')
            &&& process.uid != 0
            &&& process.effective_uid == process.uid
            &&& process.effective_gid == process.gid
            &&& account matches Some(found)
            &&& found.uid == process.uid
            &&& found.name matches Some(name)
            &&& name@ == encode_utf8(username)
        },
{
}

/// The reasons are told in this order: the name, the host, the account, its owner, its
/// spelling.
pub proof fn why_an_account_is_not_checked(
    username: Seq<char>,
    process: Process,
    account: Option<Account>,
)
    ensures
        ({
            let named = system_pam::name_valid(username);
            let ordinary = process.uid != 0 && process.effective_uid == process.uid
                && process.effective_gid == process.gid;
            let why = system_pam::complaint(username, process, account);
            &&& why == Some(Error::AccountName) <==> !named
            &&& why == Some(Error::PrivilegedHost) <==> named && !ordinary
            &&& why == Some(Error::AccountUnavailable) <==> named && ordinary && account is None
            &&& why == Some(Error::AccountOwner) <==> named && ordinary && account is Some && (
            account->0.uid != process.uid || account->0.name is None)
            &&& named <==> 1 <= encode_utf8(username).len() <= 256 && !username.contains('\0')
        }),
{
}

/// The helper finds name and password behind their lengths, the name first.
pub proof fn the_helper_finds_name_and_password(username: Seq<char>, password: Seq<char>)
    requires
        encode_utf8(username).len() <= 256,
        encode_utf8(password).len() <= 4096,
    ensures
        ({
            let frame = system_pam::request_of(username, password);
            let magic = encode_utf8("TPAM0001"@);
            let at = magic.len() as int;
            let name = encode_utf8(username);
            let secret = encode_utf8(password);
            &&& frame.take(at) == magic
            &&& wire::from_be32(frame.subrange(at, at + 4)) == name.len()
            &&& wire::from_be32(frame.subrange(at + 4, at + 8)) == secret.len()
            &&& frame.subrange(at + 8, at + 8 + name.len()) == name
            &&& frame.skip(at + 8 + name.len()) == secret
        }),
{
    let frame = system_pam::request_of(username, password);
    let magic = encode_utf8("TPAM0001"@);
    let at = magic.len() as int;
    let name = encode_utf8(username);
    let secret = encode_utf8(password);
    wire::be32_round_trip(name.len());
    wire::be32_round_trip(secret.len());
    assert(frame.take(at) =~= magic);
    assert(frame.subrange(at, at + 4) =~= wire::be32(name.len()));
    assert(frame.subrange(at + 4, at + 8) =~= wire::be32(secret.len()));
    assert(frame.subrange(at + 8, at + 8 + name.len()) =~= name);
    assert(frame.skip(at + 8 + name.len()) =~= secret);
}

/// The host finds the name behind its length, and the password behind the name.
pub proof fn the_host_finds_name_and_password(username: Seq<char>, password: Seq<char>)
    requires
        system_login::username_valid(username),
    ensures
        ({
            let frame = system_login::request_of(username, password);
            let name = encode_utf8(username);
            &&& wire::from_be16(frame.take(2)) == name.len()
            &&& frame.subrange(2, 2 + name.len() as int) == name
            &&& frame.skip(2 + name.len() as int) == encode_utf8(password)
        }),
{
    let frame = system_login::request_of(username, password);
    let name = encode_utf8(username);
    wire::be16_round_trip(name.len());
    assert(frame.take(2) =~= wire::be16(name.len()));
    assert(frame.subrange(2, 2 + name.len() as int) =~= name);
    assert(frame.skip(2 + name.len() as int) =~= encode_utf8(password));
}

/// Names and passwords of system accounts are texts of bounded length that a NUL can end.
pub proof fn names_and_passwords_of_accounts(username: Seq<char>, password: Seq<char>)
    ensures
        system_login::username_valid(username) <==> 0 < encode_utf8(username).len() <= 256
            && !username.contains('\0'),
        system_login::password_valid(password) <==> 0 < encode_utf8(password).len() <= 2048
            && !password.contains('\0'),
        system_pam::password_valid(password) <==> 0 < encode_utf8(password).len() <= 4096
            && !password.contains('\0'),
{
}

/// The answer to a login that succeeded is one, the token and the fingerprint, each of
/// sixty-four bytes, and frames announce their length in four bytes.
pub proof fn what_a_grant_says(token: Seq<char>, fingerprint: Seq<char>, data: Seq<u8>)
    requires
        text::token_form(token),
        text::token_form(fingerprint),
        data.len() <= 4096,
    ensures
        ({
            let reply = system_login::granted(token, fingerprint);
            &&& reply.len() == 129
            &&& reply[0] == 1
            &&& reply.subrange(1, 65) == encode_utf8(token)
            &&& reply.subrange(65, 129) == encode_utf8(fingerprint)
        }),
        wire::from_be32(system_login::frame_of(data).take(4)) == data.len(),
        system_login::frame_of(data).skip(4) == data,
{
    text::token_is_ascii(token);
    text::token_is_ascii(fingerprint);
    let reply = system_login::granted(token, fingerprint);
    assert(reply.subrange(1, 65) =~= encode_utf8(token));
    assert(reply.subrange(65, 129) =~= encode_utf8(fingerprint));
    wire::be32_round_trip(data.len());
    assert(system_login::frame_of(data).take(4) =~= wire::be32(data.len()));
    assert(system_login::frame_of(data).skip(4) =~= data);
}

// ------------------------------------------------------------- keys and clients

/// A key that was named is the one with that path; without a name there must be one only.
pub proof fn which_key_is_meant(
    devices: Seq<Device>,
    selection: Option<&str>,
    r: Result<usize, Error>,
    i: int,
)
    requires
        selected(devices, selection, r),
    ensures
        selection matches Some(path) ==> {
            &&& r matches Ok(n) ==> n < devices.len() && devices[n as int].path@ == path@
            &&& 0 <= i < devices.len() && devices[i].path@ == path@ ==> r is Ok
            &&& r matches Err(e) ==> e == Error::KeyNotListed
        },
        selection is None ==> {
            &&& devices.len() == 1 ==> r == Ok::<usize, Error>(0)
            &&& devices.len() == 0 ==> r == Err::<usize, Error>(Error::NoKey)
            &&& devices.len() > 1 ==> r == Err::<usize, Error>(Error::SeveralKeys)
        },
{
}

/// A credential that was enrolled is of this host and this key, and asks for its user.
pub proof fn what_is_enrolled(
    value: Seq<char>,
    id: Vec<u8>,
    public_key: Vec<u8>,
    r: Result<Credential, Error>,
)
    requires
        enrols(value, id, public_key, r),
    ensures
        r matches Ok(c) ==> {
            &&& c.fingerprint@ == value
            &&& c.id@ == id@
            &&& c.public_key@ == public_key@
            &&& c.version == 1
            &&& c.algorithm == -7
            &&& c.uv_required
            &&& value.len() == 64
            &&& id@.len() >= 1 && id@.len() <= 4096 && public_key@.len() == 64
        },
        value.len() != 64 ==> r == Err::<Credential, Error>(Error::FingerprintForm),
        public_key@.len() != 64 || id@.len() == 0 || id@.len() > 4096 ==> r is Err,
{
}

/// A key makes sure of its user by its PIN where it has one, and else by itself.
pub proof fn how_a_key_knows_its_user(has_pin: bool, has_uv: bool, r: Result<Verification, Error>)
    ensures
        verifies(false, has_pin, has_uv, r) ==> r == Err::<Verification, Error>(
            Error::Fido2Required,
        ),
        verifies(true, true, has_uv, r) ==> r == Ok::<Verification, Error>(Verification::Pin),
        verifies(true, false, true, r) ==> r == Ok::<Verification, Error>(Verification::BuiltIn),
        verifies(true, false, false, r) ==> r == Err::<Verification, Error>(
            Error::VerificationMissing,
        ),
{
}

/// The client takes a credential of the host that it talked to, and of no other, and only
/// at the end.
pub proof fn which_credential_is_taken(login: ClientLogin, pairing: Pairing, r: Result<(), Error>)
    requires
        login.accepts(pairing, r),
    ensures
        r is Ok ==> (login.phase matches ClientPhase::Opened { fingerprint } && fingerprint@
            == pairing.fingerprint@ && pairing.token@.len() == 64),
        login.phase matches ClientPhase::Opened { fingerprint } ==> pairing@.valid()
            && pairing.fingerprint@ != fingerprint@ ==> r == Err::<(), Error>(Error::HostIdentity),
        !(login.phase is Opened) ==> r == Err::<(), Error>(Error::LoginOrder),
{
}

/// A touch is asked for once at most: what comes after the reply to one is the credential.
pub proof fn a_touch_is_asked_for_once(
    login: ClientLogin,
    assertion: Seq<u8>,
    sent: Result<(ClientLogin, Vec<u8>), Error>,
    packet: Seq<u8>,
    r: Result<(ClientLogin, Answer), Error>,
)
    requires
        login.touches(assertion, sent),
        sent is Ok,
        sent->Ok_0.0.replied(packet, r),
    ensures
        r matches Ok((next, answer)) ==> answer is Credential && (next.phase matches
            ClientPhase::Opened { fingerprint } && fingerprint == login.phase->Touch_fingerprint),
{
}

/// Until a wrong password is found out nothing is opened, and no touch counts before.
pub proof fn a_proof_comes_first(
    login: ClientLogin,
    session: Option<Vec<u8>>,
    r: Result<ClientLogin, Error>,
)
    requires
        login.proves(session, r),
    ensures
        session is None ==> r is Err,
        r is Ok ==> login.phase is Proof && (r->Ok_0.phase matches ClientPhase::Reply {
            session: kept,
            touched,
            ..
        } && Some(kept) == session && !touched),
        login.phase is Proof && session is None ==> r == Err::<ClientLogin, Error>(
            Error::LoginRejected,
        ),
{
}

// ------------------------------------------------------------------- identities

/// A file that is trusted is a regular one of the user's that nobody else may touch.
pub open spec fn trusted_file(facts: FileFacts) -> bool {
    facts.owner == facts.user && facts.regular && facts.mode & 0o077 == 0
}

/// An identity is opened where its three files can be trusted, the token is one, and a
/// pairing that was saved holds the same token.
pub proof fn which_identity_is_opened(
    certificate: FileFacts,
    key: FileFacts,
    token_file: FileFacts,
    token: Seq<char>,
    pairing: Option<(FileFacts, Option<Seq<char>>)>,
)
    ensures
        ({
            let refused = identity_refused(certificate, key, token_file, token, pairing);
            &&& refused is None <==> trusted_file(certificate) && trusted_file(key)
                && trusted_file(token_file) && text::token_form(token) && (pairing matches Some(
                (facts, saved),
            ) ==> trusted_file(facts) && saved == Some(token))
            &&& certificate.owner != certificate.user ==> refused == Some(Error::IdentityOwner)
            &&& trusted_file(certificate) && trusted_file(key) && trusted_file(token_file)
                && !text::token_form(token) ==> refused == Some(Error::PersistentToken)
            &&& trusted_file(certificate) && trusted_file(key) && trusted_file(token_file)
                && text::token_form(token) ==> (pairing matches Some((facts, saved))
                ==> trusted_file(facts) ==> {
                &&& saved is None ==> refused == Some(Error::PairingUnreadable)
                &&& saved matches Some(other) ==> other != token ==> refused == Some(
                    Error::TokenMismatch,
                )
            })
        }),
{
}

/// A code is entered as six digits, with any separators among 32 bytes.
pub proof fn which_codes_are_accepted(code: Seq<char>, i: int)
    ensures
        code_valid(code) ==> normalized(code).len() == 6 && encode_utf8(code).len() <= 32 && (0 <= i
            < 6 ==> '0' <= normalized(code)[i] <= '9'),
        normalized(code).len() == 6 && encode_utf8(code).len() <= 32 && (forall|k: int|
            0 <= k < 6 ==> '0' <= #[trigger] normalized(code)[k] <= '9') ==> code_valid(code),
{
    if code_valid(code) && 0 <= i < 6 {
        assert(text::digit(normalized(code)[i]));
    }
}

/// A grant is taken where it has 129 bytes, says yes, and comes from the host that was
/// expected.
pub proof fn which_grants_are_taken(
    reply: Seq<u8>,
    expected: Seq<char>,
    token: Seq<char>,
    fingerprint: Seq<char>,
)
    requires
        system_login::is_grant(reply, expected, token, fingerprint),
    ensures
        reply.len() == 129,
        reply[0] == 1,
        reply.subrange(1, 65) == encode_utf8(token),
        reply.subrange(65, 129) == encode_utf8(fingerprint),
        crate::protocol::same_certificate(fingerprint, expected),
        text::all_hex(token),
{
    assert(reply.subrange(1, 65) =~= encode_utf8(token));
    assert(reply.subrange(65, 129) =~= encode_utf8(fingerprint));
}

/// Why a reply is no grant: it says no, or what it holds is not what it should be.
pub proof fn why_a_reply_is_no_grant(reply: Seq<u8>)
    ensures
        reply.len() != 129 ==> system_login::grant_refusal(reply) == Error::SystemLoginFailed,
        reply.len() == 129 && reply[0] != 1 ==> system_login::grant_refusal(reply)
            == Error::SystemLoginFailed,
        reply.len() == 129 && reply[0] == 1 && !vstd::utf8::valid_utf8(reply.subrange(1, 65))
            ==> system_login::grant_refusal(reply) == Error::SystemReplyText,
        reply.len() == 129 && reply[0] == 1 && vstd::utf8::valid_utf8(reply.subrange(1, 65))
            && !vstd::utf8::valid_utf8(reply.subrange(65, 129)) ==> system_login::grant_refusal(
            reply,
        ) == Error::SystemReplyText,
{
}

/// A helper is reached by directories that only root can change.
pub proof fn every_directory_counts(directories: Seq<(u32, u32)>, i: int)
    requires
        0 <= i < directories.len(),
    ensures
        system_pam::all_trusted(directories) ==> directory_trusted(directories[i].0, directories[i].1),
        system_pam::all_trusted(directories.take(i)) && directory_trusted(
            directories[i].0,
            directories[i].1,
        ) ==> system_pam::all_trusted(directories.take(i + 1)),
{
    let more = directories.take(i + 1);
    if system_pam::all_trusted(directories.take(i)) && directory_trusted(
        directories[i].0,
        directories[i].1,
    ) {
        assert forall|k: int| 0 <= k < more.len() implies directory_trusted(
            (#[trigger] more[k]).0,
            more[k].1,
        ) by {
            if k < i {
                assert(directories.take(i)[k] == more[k]);
            }
        }
    }
}

/// A request is taken where it holds a name and a password of an account in the order in
/// which the client puts them.
pub proof fn which_requests_are_taken(bytes: Seq<u8>, username: Seq<char>, password: Seq<char>)
    ensures
        system_login::username_valid(username) && system_login::password_valid(password)
            ==> system_login::is_request(system_login::request_of(username, password)),
        system_login::is_request(bytes) ==> exists|name: Seq<char>, secret: Seq<char>|
            system_login::username_valid(name) && system_login::password_valid(secret) && bytes
                == #[trigger] system_login::request_of(name, secret),
{
}

/// Why a request is not taken: what it announces does not fit, or it holds no text.
pub proof fn why_a_request_is_not_taken(bytes: Seq<u8>, size: int)
    requires
        bytes.len() >= 2,
        size == 256 * bytes[0] + bytes[1],
    ensures
        2 + size > bytes.len() ==> system_login::request_refusal(bytes) == Error::SystemCredentials,
        2 + size <= bytes.len() && !vstd::utf8::valid_utf8(bytes.subrange(2, 2 + size))
            ==> system_login::request_refusal(bytes) == Error::SystemReplyText,
        2 + size <= bytes.len() && !vstd::utf8::valid_utf8(bytes.skip(2 + size))
            ==> system_login::request_refusal(bytes) == Error::SystemReplyText,
        2 + size <= bytes.len() && vstd::utf8::valid_utf8(bytes.subrange(2, 2 + size))
            && vstd::utf8::valid_utf8(bytes.skip(2 + size)) ==> system_login::request_refusal(bytes)
            == Error::SystemCredentials,
{
    let two = bytes.subrange(0, 2);
    assert(two[0] == bytes[0] && two[1] == bytes[1]);
}

/// The two sides of an exchange can be told apart by their first byte.
pub proof fn sides_can_be_told_apart(client: Half, host: Half, code: Seq<char>)
    requires
        plays_client(client, code),
        plays_host(host, code),
    ensures
        sent(client).len() == 33 && sent(host).len() == 33,
        sent(client)[0] == 0x41 && sent(host)[0] == 0x42,
        exchange_code(client) == encode_utf8(code) && exchange_code(host) == encode_utf8(code),
        exchange_names(client) == (
            encode_utf8("teleport/pair/v1/client"@),
            encode_utf8("teleport/pair/v1/host"@),
        ),
        exchange_names(host) == exchange_names(client),
{
}

/// A code is good for one client, five attempts and its time; each client has ten seconds,
/// and no longer than the code.
pub proof fn how_long_a_code_is_offered(
    offer: Offer,
    now: u128,
    after: Offer,
    until: u128,
    r: Listen,
)
    requires
        offer.attempts <= 5,
    ensures
        offer.listens(now, r) ==> {
            &&& r == Listen::Accept <==> !offer.used && offer.attempts < 5 && now < offer.deadline
            &&& offer.used ==> r == Listen::Used
            &&& !offer.used && offer.attempts == 5 ==> r == Listen::Exhausted
            &&& !offer.used && offer.attempts < 5 && now >= offer.deadline ==> r
                == Listen::Expired
        },
        offer.begun(now, after, until) && offer.attempts < 5 ==> {
            &&& after.attempts == offer.attempts + 1
            &&& after.deadline == offer.deadline && after.used == offer.used
            &&& until <= offer.deadline
            &&& now + 10_000_000_000 <= offer.deadline ==> until == now + 10_000_000_000
            &&& now + 10_000_000_000 > offer.deadline ==> until == offer.deadline
        },
{
}

/// A code is used up by the first proof that is right and in time; what was wrong is told.
pub proof fn a_code_is_used_up(
    keys: Keys,
    evidence: Seq<u8>,
    now: u128,
    deadline: u128,
    generation: Option<u64>,
    before: u64,
    after: u64,
    r: Result<(), Error>,
)
    requires
        consumed(keys, evidence, now, deadline, generation, before, after, r),
    ensures
        r is Ok ==> now < deadline && evidence == keys.proof_of(),
        r is Ok ==> (generation matches Some(g) ==> g == before && after != before),
        r is Err ==> after == before,
        generation is None ==> after == before,
        evidence != keys.proof_of() ==> r == Err::<(), Error>(Error::PairingProof),
        evidence == keys.proof_of() && now >= deadline ==> r == Err::<(), Error>(
            Error::PairingExpired,
        ),
        evidence == keys.proof_of() && now < deadline && (generation matches Some(g) && g != before)
            ==> r == Err::<(), Error>(Error::PairingReplaced),
        evidence == keys.proof_of() && now < deadline && generation is None ==> r is Ok,
        evidence == keys.proof_of() && now < deadline && generation == Some(before) ==> r is Ok,
{
}

/// Files are written under their names: the name first, and then the text.
pub proof fn files_are_written_under_their_names(files: Seq<NewFile>, i: int)
    requires
        0 <= i < files.len(),
    ensures
        named(files).len() == files.len(),
        named(files)[i].0 == files[i].name@,
        named(files)[i].1 == files[i].text@,
{
}

/// What a login says where it is out of order, or where something cannot be sealed.
pub proof fn why_a_touch_is_not_sent(
    login: ClientLogin,
    assertion: Seq<u8>,
    r: Result<(ClientLogin, Vec<u8>), Error>,
)
    requires
        login.touches(assertion, r),
    ensures
        !(login.phase is Touch) ==> r is Err && r->Err_0 == Error::LoginOrder,
        login.phase is Touch && r is Err ==> r->Err_0 == Error::TouchEncryption,
        r is Ok ==> (r->Ok_0.0.phase matches ClientPhase::Reply { session, context, touched, .. }
            && session == login.phase->Touch_session && context == login.phase->Touch_context
            && touched),
{
}

} // verus!
