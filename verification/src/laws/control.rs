//! The control of the host by its user, and what passes of an SSH agent.
use crate::access::server::{Device, ServerState};
use crate::access;
use crate::error::Error;
use crate::host_admin::{self, AdminCommand, Attempt, Control, Probe, Request};
use crate::laws::numerals;
use crate::pairing::Keys;
use crate::ssh_agent;
use crate::text::{number_bytes, number_hex};
use crate::wire;
use vstd::prelude::*;
use vstd::utf8::encode_utf8;

verus! {

// ------------------------------------------------------------------ the agent

/// The length in four bytes, the highest first, and then the value.
pub open spec fn sized(value: Seq<u8>) -> Seq<u8> {
    seq![
        (value.len() / 16_777_216 % 256) as u8,
        (value.len() / 65_536 % 256) as u8,
        (value.len() / 256 % 256) as u8,
        (value.len() % 256) as u8,
    ] + value
}

/// What an SSH client signs to log in with a public key.
pub open spec fn signed(
    session: Seq<u8>,
    user: Seq<u8>,
    algorithm: Seq<u8>,
    key: Seq<u8>,
) -> Seq<u8> {
    sized(session) + seq![50u8] + sized(user) + sized(encode_utf8("ssh-connection"@)) + sized(
        encode_utf8("publickey"@),
    ) + seq![1u8] + sized(algorithm) + sized(key)
}

/// The request to an agent for a signature of some data by a key.
pub open spec fn asked(key: Seq<u8>, data: Seq<u8>, flag: u8) -> Seq<u8> {
    seq![13u8] + sized(key) + sized(data) + seq![0u8, 0u8, 0u8, flag]
}

pub open spec fn login(
    packet: Seq<u8>,
    session: Seq<u8>,
    user: Seq<u8>,
    algorithm: Seq<u8>,
    key: Seq<u8>,
    flag: u8,
) -> bool {
    &&& packet == asked(key, signed(session, user, algorithm, key), flag)
    &&& 16 <= session.len() <= 64
    &&& 1 <= user.len() <= 256
    &&& 1 <= algorithm.len() <= 128
    &&& flag == 0 || flag == 2 || flag == 4
}

proof fn of_one_size(value: Seq<u8>)
    ensures
        ssh_agent::field(value) == sized(value),
{
    assert(ssh_agent::field(value) =~= sized(value));
}

proof fn three(a: Seq<u8>, b: Seq<u8>, c: Seq<u8>)
    ensures
        (a + b) + c == a + (b + c),
{
    assert((a + b) + c =~= a + (b + c));
}

proof fn eight(
    a: Seq<u8>,
    b: Seq<u8>,
    c: Seq<u8>,
    d: Seq<u8>,
    e: Seq<u8>,
    f: Seq<u8>,
    g: Seq<u8>,
    h: Seq<u8>,
)
    ensures
        a + b + c + d + e + f + g + h == a + (b + (c + (d + (e + (f + (g + h)))))),
{
    three(a, b, c);
    three(a, b + c, d);
    three(b, c, d);
    let abcd = a + (b + (c + d));
    assert(a + b + c + d == abcd);
    three(e, f, g);
    three(e, f + g, h);
    three(f, g, h);
    let efgh = e + (f + (g + h));
    three(abcd, e, f);
    three(abcd, e + f, g);
    three(abcd, e + f + g, h);
    assert(abcd + e + f + g + h == abcd + efgh);
    three(a, b + (c + d), efgh);
    three(b, c + d, efgh);
    three(c, d, efgh);
}

proof fn the_same_layout(
    session: Seq<u8>,
    user: Seq<u8>,
    algorithm: Seq<u8>,
    key: Seq<u8>,
    flag: u8,
)
    ensures
        ssh_agent::login_request(session, user, algorithm, key, flag) == asked(
            key,
            signed(session, user, algorithm, key),
            flag,
        ),
{
    let connection = encode_utf8("ssh-connection"@);
    let method = encode_utf8("publickey"@);
    of_one_size(session);
    of_one_size(user);
    of_one_size(algorithm);
    of_one_size(key);
    of_one_size(connection);
    of_one_size(method);
    eight(
        sized(session),
        seq![50u8],
        sized(user),
        sized(connection),
        sized(method),
        seq![1u8],
        sized(algorithm),
        sized(key),
    );
    let data = ssh_agent::login_data(session, user, algorithm, key);
    assert(data == signed(session, user, algorithm, key));
    of_one_size(data);
    let end = seq![0u8, 0u8, 0u8, flag];
    three(seq![13u8], sized(key), sized(data));
    three(seq![13u8], sized(key) + sized(data), end);
    three(sized(key), sized(data), end);
}

/// An SSH login may be signed by the agent, with the key that logs in.
pub proof fn logins_are_signed(
    packet: Seq<u8>,
    session: Seq<u8>,
    user: Seq<u8>,
    algorithm: Seq<u8>,
    key: Seq<u8>,
    flag: u8,
)
    requires
        login(packet, session, user, algorithm, key, flag),
        packet.len() <= 65_536,
    ensures
        ssh_agent::permitted(packet),
{
    the_same_layout(session, user, algorithm, key, flag);
    assert(ssh_agent::asks_for(packet, session, user, algorithm, key, flag));
}

/// The identities may be listed, and nothing else is passed on but logins.
pub proof fn nothing_else_is_passed_on(packet: Seq<u8>)
    ensures
        ssh_agent::permitted(seq![11u8]),
        ssh_agent::permitted(packet) && packet != seq![11u8] ==> packet.len() <= 65_536 && exists|
            session: Seq<u8>,
            user: Seq<u8>,
            algorithm: Seq<u8>,
            key: Seq<u8>,
            flag: u8,
        |
            #[trigger] login(packet, session, user, algorithm, key, flag),
{
    if ssh_agent::permitted(packet) && packet != seq![11u8] {
        let (session, user, algorithm, key, flag) = choose|
            session: Seq<u8>,
            user: Seq<u8>,
            algorithm: Seq<u8>,
            key: Seq<u8>,
            flag: u8,
        |
            ssh_agent::asks_for(packet, session, user, algorithm, key, flag);
        the_same_layout(session, user, algorithm, key, flag);
        assert(login(packet, session, user, algorithm, key, flag));
    }
}

/// The agent may refuse anything. It answers a list of identities to the question
/// for one, and a signature to the question for that.
pub proof fn what_may_be_answered(request: Seq<u8>, response: Seq<u8>, size: int)
    requires
        request.len() > 0,
        response.len() > 0,
    ensures
        ssh_agent::answers(request, seq![5u8]),
        request[0] == 11 ==> (ssh_agent::answers(request, response) <==> response == seq![5u8]
            || response[0] == 12),
        request[0] == 13 ==> (ssh_agent::answers(request, response) <==> response == seq![5u8]
            || response[0] == 14),
        request[0] != 11 && request[0] != 13 && response != seq![5u8] ==> !ssh_agent::answers(
            request,
            response,
        ),
        ssh_agent::size_valid(size) <==> 0 < size <= 65_536,
{
}

proof fn hexadecimals_differ(a: u64, b: u64)
    ensures
        number_hex(a).len() == 16,
        a != b ==> number_hex(a) != number_hex(b),
{
    numerals::numbers_are_read_again(a);
    numerals::numbers_are_read_again(b);
    let x = number_bytes(a);
    let y = number_bytes(b);
    if number_hex(a) == number_hex(b) {
        assert forall|i: int| 0 <= i < 8 implies x[i] == y[i] by {
            numerals::hexadecimals_are_read_again(x, i);
            numerals::hexadecimals_are_read_again(y, i);
        }
        assert(x =~= y);
    }
}

/// Directories of sockets are named after their numbers in 32 digits, the higher
/// half first, so that no two numbers share one.
pub proof fn sockets_have_their_own_directories(a: u128, b: u128, high: u64, low: u64)
    requires
        a == high * 0x1_0000_0000_0000_0000 + low,
    ensures
        ssh_agent::directory_path(a) == "/tmp/teleport-agent-"@ + number_hex(high) + number_hex(low),
        ssh_agent::directory_path(a).len() == 52,
        a != b ==> ssh_agent::directory_path(a) != ssh_agent::directory_path(b),
{
    reveal_strlit("/tmp/teleport-agent-");
    let h = (b / 0x1_0000_0000_0000_0000) as u64;
    let l = (b % 0x1_0000_0000_0000_0000) as u64;
    assert(b == h * 0x1_0000_0000_0000_0000 + l);
    assert(a / 0x1_0000_0000_0000_0000 == high);
    assert(a % 0x1_0000_0000_0000_0000 == low);
    hexadecimals_differ(high, h);
    hexadecimals_differ(low, l);
    let p = ssh_agent::directory_path(a);
    let q = ssh_agent::directory_path(b);
    assert(p.len() == 52 && q.len() == 52);
    assert(p.subrange(20, 36) =~= number_hex(high));
    assert(q.subrange(20, 36) =~= number_hex(h));
    assert(p.subrange(36, 52) =~= number_hex(low));
    assert(q.subrange(36, 52) =~= number_hex(l));
}

#[verifier::spinoff_prover]
proof fn four_bytes_are_read_again(n: nat)
    requires
        n < 4_294_967_296,
    ensures
        numerals::read_bytes(wire::be32(n)) == n,
{
    let c = wire::be32(n);
    let d1 = c.drop_last();
    let d2 = d1.drop_last();
    let d3 = d2.drop_last();
    assert(numerals::read_bytes(d3.drop_last()) == 0);
    assert(numerals::read_bytes(d3) == n / 16_777_216);
    assert(numerals::read_bytes(d2) == n / 65_536);
    assert(numerals::read_bytes(d1) == n / 256);
    assert(numerals::read_bytes(c) == n);
}

/// A length in four bytes is read as it was written, the highest byte first.
pub proof fn long_lengths_are_read_again(n: nat, data: Seq<u8>)
    requires
        n < 4_294_967_296,
        data.len() < 4_294_967_296,
    ensures
        wire::be32(n).len() == 4,
        numerals::read_bytes(wire::be32(n)) == n,
        wire::from_be32(wire::be32(n)) == n,
        host_admin::message_of(data).len() == 4 + data.len(),
        numerals::read_bytes(host_admin::message_of(data).take(4)) == data.len(),
        host_admin::message_of(data).skip(4) == data,
{
    four_bytes_are_read_again(n);
    four_bytes_are_read_again(data.len());
    wire::be32_round_trip(n);
    assert(host_admin::message_of(data).take(4) =~= wire::be32(data.len()));
    assert(host_admin::message_of(data).skip(4) =~= data);
}

// ---------------------------------------------------------------- the control

/// A code that was opened is good for five minutes and for five clients. It has
/// six digits, which are read as its number.
pub proof fn a_code_is_good_for_five_minutes(
    before: Control,
    number: nat,
    now: u128,
    after: Control,
    time: u128,
)
    requires
        Control::opened(before, number, now, after),
        number < 1_000_000,
        now + 300_000_000_000 <= u128::MAX,
    ensures
        after.usable(time) <==> time < now + 300_000_000_000,
        after.code is Some,
        after.code->0.attempts == 5,
        after.code->0.value@.len() == 6,
        numerals::read_decimal(after.code->0.value@) == number,
        after.epoch != before.epoch,
        after.wf(),
{
    numerals::codes_are_read_again(number);
}

/// A code is usable only while it is the latest, some client is still allowed, and
/// its time has not come.
pub proof fn what_makes_a_code_usable(control: Control, now: u128)
    ensures
        control.code is None ==> !control.usable(now),
        control.code matches Some(code) ==> {
            &&& code.generation != control.epoch ==> !control.usable(now)
            &&& code.attempts == 0 ==> !control.usable(now)
            &&& now >= code.deadline ==> !control.usable(now)
            &&& code.generation == control.epoch && code.attempts > 0 && now < code.deadline
                ==> control.usable(now)
        },
{
}

proof fn kept(devices: Seq<Device>, keep: spec_fn(Device) -> bool, i: int)
    ensures
        0 <= i < devices.filter(keep).len() ==> keep(devices.filter(keep)[i]) && devices.contains(
            devices.filter(keep)[i],
        ),
        0 <= i < devices.len() && keep(devices[i]) ==> devices.filter(keep).contains(devices[i]),
{
    broadcast use vstd::seq_lib::group_filter_ensures;
    reveal(Seq::filter);
    if 0 <= i < devices.filter(keep).len() {
        devices.lemma_filter_contains_rev(keep, devices.filter(keep)[i]);
    }
}

/// A new password, or none, takes the access from the devices that had it by the
/// old one, and from no other. What was begun before cannot be ended after.
pub proof fn a_change_of_password_ends_old_access(
    before: ServerState,
    request: Request,
    registration: Vec<u8>,
    after: ServerState,
    i: int,
)
    requires
        host_admin::carried_out(before, request, registration, after),
        host_admin::permitted(before, request),
        request is SetPassword || request is DisablePassword,
    ensures
        0 <= i < after.record.devices@.len() ==> after.record.devices@[i].summary.source@
            != "password"@ && before.record.devices@.contains(after.record.devices@[i]),
        0 <= i < before.record.devices@.len() && before.record.devices@[i].summary.source@
            != "password"@ ==> after.record.devices@.contains(before.record.devices@[i]),
        after.record.generation == before.record.generation + 1,
        request matches Request::SetPassword { username, password } ==> {
            &&& after.record.account matches Some(account) && account.username@ == username@
                && account.registration == registration
            &&& username@.len() > 0 && password@.len() >= 12
        },
        request is DisablePassword ==> after.record.account is None,
        after.record.u2f == before.record.u2f,
        after.record.u2f_counter == before.record.u2f_counter,
        after.record.attempts == before.record.attempts,
        after.legacy == before.legacy,
        after.system_sessions == before.system_sessions,
{
    kept(before.record.devices@, crate::access::server::not_from("password"@), i);
    if let Request::SetPassword { username, password } = request {
        crate::laws::entry::user_names(username@, 0);
        crate::laws::entry::weak_passwords_are_refused(password@);
    }
}

/// To revoke a device takes the access from it and from no other, and fails where
/// there is no such device; to revoke all takes it from all.
pub proof fn a_revoked_device_is_gone(
    before: ServerState,
    request: Request,
    registration: Vec<u8>,
    after: ServerState,
    i: int,
)
    requires
        host_admin::permitted(before, request) ==> host_admin::carried_out(
            before,
            request,
            registration,
            after,
        ),
    ensures
        request matches Request::RevokeDevice { id } ==> {
            &&& 0 <= i < before.record.devices@.len() && before.record.devices@[i].summary.id@
                == id@ ==> host_admin::permitted(before, request)
            &&& host_admin::permitted(before, request) ==> {
                &&& 0 <= i < after.record.devices@.len() ==> after.record.devices@[i].summary.id@
                    != id@ && before.record.devices@.contains(after.record.devices@[i])
                &&& 0 <= i < before.record.devices@.len()
                    && before.record.devices@[i].summary.id@ != id@
                    ==> after.record.devices@.contains(before.record.devices@[i])
                &&& after.record.generation == before.record.generation
                &&& after.record.account == before.record.account
                &&& after.system_sessions == before.system_sessions
            }
            &&& (forall|j: int|
                0 <= j < before.record.devices@.len() ==> (
                #[trigger] before.record.devices@[j]).summary.id@ != id@)
                ==> !host_admin::permitted(before, request)
        },
        request is RevokeAllDevices && host_admin::permitted(before, request) ==> {
            &&& after.record.devices@.len() == 0
            &&& after.record.generation == before.record.generation + 1
            &&& after.record.account == before.record.account
        },
        request is Status || request is OpenPairing || request is ClosePairing
            ==> host_admin::permitted(before, request) && after == before,
{
    if let Request::RevokeDevice { id } = request {
        kept(before.record.devices@, crate::access::server::not_named(id@), i);
    }
}

/// Each refusal says what was wrong.
pub proof fn why_a_request_is_refused(access: ServerState, request: Request)
    requires
        !host_admin::permitted(access, request),
    ensures
        request is RevokeDevice ==> host_admin::refusal(request) == Error::DeviceNotFound,
        request is DisablePassword || request is RevokeAllDevices ==> host_admin::refusal(request)
            == Error::GenerationExhausted && access.record.generation == u64::MAX,
        request matches Request::SetPassword { username, password } ==> {
            &&& username@.len() == 0 ==> host_admin::refusal(request) == Error::Username
            &&& access::username_valid(username@) && access::password_valid(password@)
                ==> host_admin::refusal(request) == Error::GenerationExhausted
            &&& access::username_valid(username@) && password@.len() < 12 ==> host_admin::refusal(
                request,
            ) == access::password_refusal(password@)
        },
{
    if let Request::SetPassword { username, password } = request {
        crate::laws::entry::user_names(username@, 0);
        crate::laws::entry::weak_passwords_are_refused(password@);
    }
}

/// Each client that wants to pair costs one attempt and learns which code it is for;
/// without a code, or attempts, or time, it is refused and costs nothing.
pub proof fn each_client_costs_an_attempt(
    before: Control,
    now: u128,
    after: Control,
    r: Result<Attempt, Error>,
)
    requires
        before.tried(now, after, r),
    ensures
        before.code is None ==> r is Err && r->Err_0 == Error::PairingClosed,
        before.code matches Some(code) ==> {
            &&& code.attempts > 0 && now < code.deadline ==> r is Ok
            &&& code.attempts == 0 || now >= code.deadline ==> r is Err && r->Err_0
                == Error::PairingOver
            &&& r matches Ok(attempt) ==> {
                &&& attempt.value@ == code.value@
                &&& attempt.deadline == code.deadline
                &&& attempt.generation == code.generation
                &&& after.code matches Some(left) && left.attempts + 1 == code.attempts
                    && left.value == code.value && left.deadline == code.deadline
                    && left.generation == code.generation
            }
        },
        r is Err ==> after == before,
        after.epoch == before.epoch,
{
}

/// The enrolment port is open while a password can be tried or a code can be used, and a
/// code that cannot be used is forgotten.
pub proof fn when_the_port_is_open(
    before: Control,
    password: bool,
    now: u128,
    after: Control,
    r: bool,
)
    requires
        before.listens(password, now, after, r),
    ensures
        password ==> r,
        before.usable(now) ==> r && after.code == before.code,
        !password && !before.usable(now) ==> !r,
        !before.usable(now) ==> after.code is None,
        after.epoch == before.epoch,
{
}

/// A command asks for what it says. A new password was entered twice, and the second entry
/// is gone.
pub proof fn commands_ask_for_what_they_say(
    command: AdminCommand,
    password: String,
    before: Seq<char>,
    after: Seq<char>,
    r: Result<Request, Error>,
)
    requires
        host_admin::requested(command, password, before, after, r),
    ensures
        command is Status ==> r is Ok && r->Ok_0 is Status,
        command is OpenPairing ==> r is Ok && r->Ok_0 is OpenPairing,
        command is ClosePairing ==> r is Ok && r->Ok_0 is ClosePairing,
        command is DisablePassword ==> r is Ok && r->Ok_0 is DisablePassword,
        command is RevokeAllDevices ==> r is Ok && r->Ok_0 is RevokeAllDevices,
        command matches AdminCommand::RevokeDevice { id } ==> r is Ok && r->Ok_0 == (
        Request::RevokeDevice { id }),
        command matches AdminCommand::SetPassword { username } ==> {
            &&& password@ == before ==> r is Ok && r->Ok_0 == (Request::SetPassword {
                username,
                password,
            })
            &&& password@ != before ==> r is Err && r->Err_0 == Error::PasswordsDiffer
            &&& after.len() == 0
        },
{
}

/// A connection is for the service whose first bytes it sends.
pub proof fn services_are_told_by_their_first_bytes(magic: Seq<u8>, r: host_admin::Service)
    requires
        host_admin::dispatched(magic, r),
    ensures
        magic == encode_utf8("TPAUTH01"@) ==> r == host_admin::Service::Login,
        magic == encode_utf8("TPPAIR01"@) && magic != encode_utf8("TPAUTH01"@) ==> r
            == host_admin::Service::Pairing,
        magic != encode_utf8("TPAUTH01"@) && magic != encode_utf8("TPPAIR01"@) ==> r
            == host_admin::Service::Nobody,
{
}

/// An answer says where the host listens, which it is, who may log in, and which devices
/// there are, each under its own name.
pub proof fn what_an_answer_says(
    control: Control,
    listen: Seq<char>,
    fingerprint: Seq<char>,
    status: access::AccessStatus,
    code: Option<String>,
    now: u128,
    r: host_admin::Response,
    i: int,
)
    requires
        control.responded(listen, fingerprint, status, code, now, r),
    ensures
        r.error is None,
        r.listen@ == listen,
        r.fingerprint@ == fingerprint,
        r.username == status.username,
        r.code == code,
        r.pairing_open == control.usable(now),
        r.devices@.len() == status.devices@.len(),
        0 <= i < status.devices@.len() ==> r.devices@[i].id@ == status.devices@[i].id@
            && r.devices@[i].name@ == status.devices@[i].name@,
{
}

/// A socket is removed where it is the user's and nobody listens there.
pub proof fn which_sockets_are_removed(
    facts: host_admin::PathFacts,
    probe: Probe,
    r: Result<(), Error>,
)
    requires
        host_admin::leftover(facts, probe, r),
    ensures
        r is Ok <==> facts.socket && facts.owner == facts.user && probe == Probe::Refused,
        !facts.socket || facts.owner != facts.user ==> r == Err::<(), Error>(
            Error::ExistingSocket,
        ),
        facts.socket && facts.owner == facts.user && probe == Probe::Connected ==> r == Err::<
            (),
            Error,
        >(Error::SocketOwned),
        facts.socket && facts.owner == facts.user && probe == Probe::Failed ==> r == Err::<
            (),
            Error,
        >(Error::SocketUnchecked),
{
}

/// A code serves one client: the proof that was right is the last.
pub proof fn a_code_serves_one_client(
    before: Control,
    attempt: Attempt,
    keys: Keys,
    evidence: Seq<u8>,
    now: u128,
    after: Control,
    r: Result<(), Error>,
    again: Control,
    second: Result<(), Error>,
)
    requires
        before.confirmed(attempt, keys, evidence, now, after, r),
        after.confirmed(attempt, keys, evidence, now, again, second),
    ensures
        r is Ok ==> second is Err && evidence == keys.proof_of() && now < attempt.deadline
            && attempt.generation == before.epoch,
        evidence == keys.proof_of() && now < attempt.deadline && attempt.generation == before.epoch
            ==> r is Ok,
        r is Err ==> after.epoch == before.epoch,
        after.code == before.code,
        r is Ok ==> !after.usable(now) || before.code is None || before.code->0.generation
            != before.epoch,
{
}

} // verus!
