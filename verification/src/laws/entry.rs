//! Who may enter, with what, for how long and how often.
use crate::access::login::{touch_hash_of, Exchange, Login, Phase};
use crate::access::server::{
    attempts_from, entries, has_source, live, other_ticket, pruned, recent, ticket_claimable,
    ticket_live, token_hash_of, with_attempt, Address, Record, ServerState, SessionLease,
    SystemSession,
};
use crate::access::{
    context_of, device_name_valid, login_password_valid, opened_packet, password_refusal,
    password_valid, sealed_packet, username_valid, AccessStatus, Hello,
};
use crate::crypto;
use crate::error::Error;
use crate::protocol::Pairing;
use crate::security_key::Credential;
use crate::text;
use vstd::prelude::*;
use vstd::utf8::encode_utf8;

verus! {

/// Some device has a credential with this token.
pub open spec fn a_device_has(state: ServerState, token: Seq<char>) -> bool {
    exists|i: int|
        0 <= i < state.record.devices@.len() && (#[trigger] state.record.devices@[i]).token_hash@
            == crypto::sha256_of(encode_utf8(token))
}

/// There is a ticket with this token of the present policy.
pub open spec fn a_ticket_has(
    state: ServerState,
    token: Seq<char>,
    fit: spec_fn(SystemSession) -> bool,
) -> bool {
    exists|i: int|
        0 <= i < state.system_sessions@.len() && (#[trigger] state.system_sessions@[i]).hash@
            == crypto::sha256_of(encode_utf8(token)) && state.system_sessions@[i].generation
            == state.record.generation && fit(state.system_sessions@[i])
}

/// What opens a session: the host's own token, that of a device, and, unless a security
/// key is required, that of a ticket which is in use or has not run out. Nothing else does.
pub proof fn what_opens_a_session(state: ServerState, token: Seq<char>, now: u128)
    ensures
        state.accepts(token, now) <==> token.len() == 64 && text::all_hex(token) && (token
            == state.legacy.token@ || a_device_has(state, token) || state.record.u2f is None
            && a_ticket_has(state, token, |t: SystemSession| t.active || t.deadline > now)),
{
    let fit = |t: SystemSession| t.active || t.deadline > now;
    if state.accepts(token, now) && token != state.legacy.token@ && !a_device_has(state, token) {
        let i = choose|i: int|
            0 <= i < state.system_sessions@.len() && (#[trigger] state.system_sessions@[i]).hash@
                == token_hash_of(token) && ticket_live(
                state.system_sessions@[i],
                state.record.generation,
                now,
            );
        assert(fit(state.system_sessions@[i]));
    }
    if state.record.u2f is None && a_ticket_has(state, token, fit) {
        let i = choose|i: int|
            0 <= i < state.system_sessions@.len() && (#[trigger] state.system_sessions@[i]).hash@
                == crypto::sha256_of(encode_utf8(token)) && state.system_sessions@[i].generation
                == state.record.generation && fit(state.system_sessions@[i]);
        assert(ticket_live(state.system_sessions@[i], state.record.generation, now));
    }
}

/// What begins a session: the host's own token and that of a device, as often as they
/// like, and a ticket that no session has used yet.
pub proof fn what_begins_a_session(state: ServerState, token: Seq<char>, now: u128)
    ensures
        state.may_begin(token, now) <==> token.len() == 64 && text::all_hex(token) && (token
            == state.legacy.token@ || a_device_has(state, token) || state.record.u2f is None
            && a_ticket_has(state, token, |t: SystemSession| !t.active && t.deadline > now)),
{
    let fit = |t: SystemSession| !t.active && t.deadline > now;
    if state.may_begin(token, now) && !state.saved(token) {
        let i = choose|i: int|
            0 <= i < state.system_sessions@.len() && (#[trigger] state.system_sessions@[i]).hash@
                == token_hash_of(token) && ticket_claimable(
                state.system_sessions@[i],
                state.record,
                now,
            );
        assert(fit(state.system_sessions@[i]));
    }
    if state.record.u2f is None && a_ticket_has(state, token, fit) {
        let i = choose|i: int|
            0 <= i < state.system_sessions@.len() && (#[trigger] state.system_sessions@[i]).hash@
                == crypto::sha256_of(encode_utf8(token)) && state.system_sessions@[i].generation
                == state.record.generation && fit(state.system_sessions@[i]);
        assert(ticket_claimable(state.system_sessions@[i], state.record, now));
    }
}

/// A token that opens nothing at first opens nothing later, as long as nothing changes:
/// time only takes tickets away.
pub proof fn time_gives_no_access(state: ServerState, token: Seq<char>, now: u128, later: u128)
    requires
        now <= later,
    ensures
        state.accepts(token, later) ==> state.accepts(token, now),
        state.may_begin(token, later) ==> state.may_begin(token, now),
{
    what_opens_a_session(state, token, now);
    what_opens_a_session(state, token, later);
    what_begins_a_session(state, token, now);
    what_begins_a_session(state, token, later);
    let open_later = |t: SystemSession| t.active || t.deadline > later;
    let open_now = |t: SystemSession| t.active || t.deadline > now;
    if a_ticket_has(state, token, open_later) {
        let i = choose|i: int|
            0 <= i < state.system_sessions@.len() && (#[trigger] state.system_sessions@[i]).hash@
                == crypto::sha256_of(encode_utf8(token)) && state.system_sessions@[i].generation
                == state.record.generation && open_later(state.system_sessions@[i]);
        assert(open_now(state.system_sessions@[i]));
    }
    let free_later = |t: SystemSession| !t.active && t.deadline > later;
    let free_now = |t: SystemSession| !t.active && t.deadline > now;
    if a_ticket_has(state, token, free_later) {
        let i = choose|i: int|
            0 <= i < state.system_sessions@.len() && (#[trigger] state.system_sessions@[i]).hash@
                == crypto::sha256_of(encode_utf8(token)) && state.system_sessions@[i].generation
                == state.record.generation && free_later(state.system_sessions@[i]);
        assert(free_now(state.system_sessions@[i]));
    }
}

/// The device that is added has the name, the origin, the number and the date that it
/// was given, comes last, and leaves the others as they are.
pub proof fn a_device_is_what_it_was_called(
    before: ServerState,
    after: ServerState,
    name: Seq<char>,
    source: Seq<char>,
    token: Seq<char>,
    id: Seq<char>,
    created: u64,
    i: int,
)
    requires
        after.added_device(&before, name, source, token, id, created),
    ensures
        ({
            let n = before.record.devices@.len() as int;
            &&& after.record.devices@.len() == n + 1
            &&& after.record.devices@[n].summary.name@ == name
            &&& after.record.devices@[n].summary.source@ == source
            &&& after.record.devices@[n].summary.id@ == id
            &&& after.record.devices@[n].summary.created_unix == created
            &&& after.record.devices@[n].token_hash@ == crypto::sha256_of(encode_utf8(token))
            &&& 0 <= i < n ==> after.record.devices@[i] == before.record.devices@[i]
            &&& after.record.generation == before.record.generation
            &&& after.record.account == before.record.account
            &&& after.record.u2f == before.record.u2f
            &&& after.record.u2f_counter == before.record.u2f_counter
            &&& after.record.attempts == before.record.attempts
            &&& after.system_sessions == before.system_sessions
            &&& after.legacy == before.legacy
        }),
{
    let n = before.record.devices@.len() as int;
    if 0 <= i < n {
        assert(after.record.devices@.drop_last()[i] == before.record.devices@[i]);
    }
}

/// A password login ends with a credential where its policy still stands and there is
/// an account; a ticket is granted where its policy still stands and no security key is
/// required; a touch counts where its policy still stands, a key is required, and the
/// counter has moved on.
pub proof fn what_a_login_may_end_with(state: ServerState, generation: u64, counter: u32)
    ensures
        state.may_issue(generation) <==> generation == state.record.generation
            && state.record.account is Some,
        state.ticket_permitted(generation) <==> generation == state.record.generation
            && state.record.u2f is None,
        state.touch_acceptable(generation, counter) <==> generation == state.record.generation
            && state.record.u2f is Some && state.record.u2f_counter < counter,
{
}

/// A ticket that is granted is for its token and for sixty seconds, and no session has
/// used it; dead tickets are gone, and the living ones stay as they are.
pub proof fn a_ticket_is_granted(
    before: ServerState,
    after: ServerState,
    generation: u64,
    now: u128,
    token: Seq<char>,
    other: SystemSession,
)
    requires
        before.wf(),
        after.ticket_requested(&before, generation, now, token),
        before.ticket_permitted(generation),
        before.ticket_room(generation, now),
        now <= 1_000_000_000_000_000_000_000_000,
    ensures
        ({
            let last = after.system_sessions@.last();
            &&& after.system_sessions@.len() > 0
            &&& last.hash@ == crypto::sha256_of(encode_utf8(token))
            &&& last.generation == generation
            &&& last.deadline == now + 60_000_000_000
            &&& !last.active
            &&& after.system_sessions@.drop_last().contains(other) <==> (
            before.system_sessions@.contains(other) && other.generation == generation && (
            other.active || other.deadline > now) && other.hash@ != crypto::sha256_of(
                encode_utf8(token),
            ))
            &&& after.record == before.record
            &&& after.legacy == before.legacy
        }),
{
    let all = before.system_sessions@;
    let kept = all.filter(live(generation, now));
    let rest = kept.filter(other_ticket(token_hash_of(token)));
    crate::lists::filter_facts(all, live(generation, now));
    crate::lists::filter_facts(kept, other_ticket(token_hash_of(token)));
    if rest.contains(other) {
        let i = choose|i: int| 0 <= i < rest.len() && rest[i] == other;
        assert(other_ticket(token_hash_of(token))(rest[i]));
        assert(kept.contains(rest[i]));
        let j = choose|j: int| 0 <= j < kept.len() && kept[j] == other;
        assert(live(generation, now)(kept[j]));
        assert(all.contains(kept[j]));
    }
    if all.contains(other) && live(generation, now)(other) && other_ticket(token_hash_of(token))(
        other,
    ) {
        let i = choose|i: int| 0 <= i < all.len() && all[i] == other;
        assert(kept.contains(all[i]));
        let j = choose|j: int| 0 <= j < kept.len() && kept[j] == other;
        assert(rest.contains(kept[j]));
    }
}

/// No more than sixteen tickets live at a time.
pub proof fn sixteen_tickets_at_most(state: ServerState, generation: u64, now: u128)
    ensures
        state.ticket_room(generation, now) <==> state.system_sessions@.filter(
            |t: SystemSession| t.generation == generation && (t.active || t.deadline > now),
        ).len() <= 15,
{
    let plain = |t: SystemSession| t.generation == generation && (t.active || t.deadline > now);
    assert(plain =~= live(generation, now));
}

/// An attempt counts for sixty seconds, and one ahead of the clock counts too.
pub proof fn attempts_count_for_a_minute(time: u64, t: u64)
    ensures
        recent(time)(t) <==> t + 60 > time,
{
}

proof fn attempts_after_pruning(known: Seq<(Address, Seq<u64>)>, time: u64, ip: Address)
    requires
        forall|i: int, j: int|
            0 <= i < j < known.len() ==> (#[trigger] known[i]).0 != (#[trigger] known[j]).0,
    ensures
        attempts_from(pruned(known, time), ip) =~= attempts_from(known, ip).filter(recent(time)),
        has_source(pruned(known, time), ip) <==> attempts_from(known, ip).filter(
            recent(time),
        ).len() > 0,
    decreases known.len(),
{
    reveal(Seq::filter);
    let cut = |e: (Address, Seq<u64>)| (e.0, e.1.filter(recent(time)));
    let busy = |e: (Address, Seq<u64>)| e.1.len() > 0;
    if known.len() == 0 {
        assert(known.map_values(cut) =~= Seq::empty());
        assert(pruned(known, time) =~= Seq::empty());
        assert(Seq::<u64>::empty().filter(recent(time)).len() == 0);
    } else {
        let fewer = known.drop_last();
        assert forall|i: int, j: int| 0 <= i < j < fewer.len() implies (#[trigger] fewer[i]).0 != (
        #[trigger] fewer[j]).0 by {
            assert(known[i] == fewer[i] && known[j] == fewer[j]);
        }
        attempts_after_pruning(fewer, time, ip);
        let last = known.last();
        assert(known.map_values(cut).drop_last() =~= fewer.map_values(cut));
        assert(known.map_values(cut).last() == cut(last));
        let a = pruned(fewer, time);
        let b = pruned(known, time);
        if busy(cut(last)) {
            assert(b == a.push(cut(last)));
            assert(b.drop_last() =~= a);
        } else {
            assert(b == a);
        }
        if last.0 == ip {
            absent_source(fewer, ip, known);
            assert(attempts_from(fewer, ip).len() == 0);
            assert(attempts_from(fewer, ip).filter(recent(time)).len() == 0) by {
                assert(attempts_from(fewer, ip) =~= Seq::empty());
            }
            assert(!has_source(a, ip));
            if busy(cut(last)) {
                assert(b[a.len() as int].0 == ip);
            } else {
                no_attempts_from(a, ip);
            }
        } else {
            if has_source(a, ip) {
                let k = choose|k: int| 0 <= k < a.len() && (#[trigger] a[k]).0 == ip;
                assert(b[k].0 == ip);
            }
            if has_source(b, ip) {
                let k = choose|k: int| 0 <= k < b.len() && (#[trigger] b[k]).0 == ip;
                if k < a.len() {
                    assert(a[k].0 == ip);
                }
            }
        }
    }
}

proof fn no_attempts_from(known: Seq<(Address, Seq<u64>)>, ip: Address)
    requires
        !has_source(known, ip),
    ensures
        attempts_from(known, ip).len() == 0,
    decreases known.len(),
{
    if known.len() > 0 {
        assert(known[known.len() - 1].0 != ip);
        let fewer = known.drop_last();
        if has_source(fewer, ip) {
            let k = choose|k: int| 0 <= k < fewer.len() && (#[trigger] fewer[k]).0 == ip;
            assert(known[k].0 == ip);
        }
        no_attempts_from(fewer, ip);
    }
}

proof fn absent_source(
    fewer: Seq<(Address, Seq<u64>)>,
    ip: Address,
    known: Seq<(Address, Seq<u64>)>,
)
    requires
        known.len() > 0,
        fewer == known.drop_last(),
        known.last().0 == ip,
        forall|i: int, j: int|
            0 <= i < j < known.len() ==> (#[trigger] known[i]).0 != (#[trigger] known[j]).0,
    ensures
        attempts_from(fewer, ip).len() == 0,
{
    if has_source(fewer, ip) {
        let k = choose|k: int| 0 <= k < fewer.len() && (#[trigger] fewer[k]).0 == ip;
        assert(known[k] == fewer[k]);
        assert(known[k].0 != known[known.len() - 1].0);
    }
    no_attempts_from(fewer, ip);
}

/// The attempts from an address that still count.
pub open spec fn counting(state: ServerState, ip: Address, time: u64) -> Seq<u64> {
    attempts_from(entries(state.sources@), ip).filter(|t: u64| t + 60 > time)
}

/// An attempt is within the limits where fewer than five from the same address count and
/// fewer than ten of all, and where its address is known or fewer than 256 are.
pub proof fn five_from_one_and_ten_of_all(state: ServerState, ip: Address, time: u64)
    requires
        state.wf(),
    ensures
        ({
            let of_all = state.record.attempts@.filter(|t: u64| t + 60 > time).len();
            let of_one = counting(state, ip, time).len();
            &&& of_one >= 5 ==> !state.attempt_allowed(ip, time)
            &&& of_all >= 10 ==> !state.attempt_allowed(ip, time)
            &&& of_one < 5 && of_all < 10 && (of_one > 0 || state.sources@.len() < 256)
                ==> state.attempt_allowed(ip, time)
        }),
{
    let plain = |t: u64| t + 60 > time;
    assert(plain =~= recent(time));
    let known = entries(state.sources@);
    assert forall|i: int, j: int| 0 <= i < j < known.len() implies (#[trigger] known[i]).0 != (
    #[trigger] known[j]).0 by {
        assert(state.sources@[i].ip != state.sources@[j].ip);
    }
    attempts_after_pruning(known, time, ip);
    let cut = |e: (Address, Seq<u64>)| (e.0, e.1.filter(recent(time)));
    let busy = |e: (Address, Seq<u64>)| e.1.len() > 0;
    crate::lists::filter_facts(known.map_values(cut), busy);
}

proof fn attempts_with_one_more(
    known: Seq<(Address, Seq<u64>)>,
    ip: Address,
    time: u64,
    other: Address,
)
    requires
        forall|i: int, j: int|
            0 <= i < j < known.len() ==> (#[trigger] known[i]).0 != (#[trigger] known[j]).0,
    ensures
        attempts_from(
            known.map_values(
                |e: (Address, Seq<u64>)| if e.0 == ip { (e.0, e.1.push(time)) } else { e },
            ),
            other,
        ) =~= if other == ip && has_source(known, ip) {
            attempts_from(known, ip).push(time)
        } else {
            attempts_from(known, other)
        },
    decreases known.len(),
{
    let more = |e: (Address, Seq<u64>)| if e.0 == ip { (e.0, e.1.push(time)) } else { e };
    if known.len() > 0 {
        let fewer = known.drop_last();
        assert forall|i: int, j: int| 0 <= i < j < fewer.len() implies (#[trigger] fewer[i]).0 != (
        #[trigger] fewer[j]).0 by {
            assert(known[i] == fewer[i] && known[j] == fewer[j]);
        }
        attempts_with_one_more(fewer, ip, time, other);
        assert(known.map_values(more).drop_last() =~= fewer.map_values(more));
        assert(known.map_values(more).last() == more(known.last()));
        if has_source(known, ip) {
            let k = choose|k: int| 0 <= k < known.len() && (#[trigger] known[k]).0 == ip;
            if k < fewer.len() {
                assert(fewer[k].0 == ip);
            }
        }
        if has_source(fewer, ip) {
            let k = choose|k: int| 0 <= k < fewer.len() && (#[trigger] fewer[k]).0 == ip;
            assert(known[k].0 == ip);
        }
        if known.last().0 == ip {
            assert(known[known.len() - 1].0 == ip);
        }
    }
}

/// An attempt is counted for the address that it came from, and for no other.
pub proof fn an_attempt_is_counted_for_its_address(
    known: Seq<(Address, Seq<u64>)>,
    ip: Address,
    time: u64,
    other: Address,
)
    requires
        forall|i: int, j: int|
            0 <= i < j < known.len() ==> (#[trigger] known[i]).0 != (#[trigger] known[j]).0,
    ensures
        attempts_from(with_attempt(known, ip, time), ip).len() == attempts_from(known, ip).len() + 1,
        attempts_from(with_attempt(known, ip, time), ip).last() == time,
        other != ip ==> attempts_from(with_attempt(known, ip, time), other) == attempts_from(
            known,
            other,
        ),
{
    if has_source(known, ip) {
        attempts_with_one_more(known, ip, time, ip);
        attempts_with_one_more(known, ip, time, other);
        let more = known.map_values(
            |e: (Address, Seq<u64>)| if e.0 == ip { (e.0, e.1.push(time)) } else { e },
        );
        assert(with_attempt(known, ip, time) =~= more);
        let one = attempts_from(more, ip);
        assert(one =~= attempts_from(known, ip).push(time));
        assert(one.len() == attempts_from(known, ip).len() + 1 && one.last() == time);
    } else {
        no_attempts_from(known, ip);
        assert(known.push((ip, seq![time])).drop_last() =~= known);
    }
}

/// A record that is loaded is of the first version and holds no more devices and attempts
/// than were ever written.
pub proof fn records_are_bounded(record: Record)
    ensures
        record.bounded() <==> record.version == 1 && record.devices@.len() <= 128
            && record.attempts@.len() <= 10,
{
}

// -------------------------------------------------------- names and passwords

/// A letter or a digit of ASCII.
pub open spec fn plain_letter(c: char) -> bool {
    'a' <= c <= 'z' || 'A' <= c <= 'Z' || '0' <= c <= '9'
}

/// A user name has one to sixty-four letters, digits, dots, hyphens and underscores.
pub proof fn user_names(name: Seq<char>, i: int)
    ensures
        username_valid(name) ==> name.len() >= 1 && name.len() <= 64 && (0 <= i < name.len()
            ==> plain_letter(name[i]) || name[i] == '.' || name[i] == '-' || name[i] == '_'),
        1 <= name.len() <= 64 && (forall|k: int|
            0 <= k < name.len() ==> plain_letter(#[trigger] name[k]) || name[k] == '.' || name[k]
                == '-' || name[k] == '_') ==> username_valid(name),
{
    if username_valid(name) && 0 <= i < name.len() {
        assert(crate::access::username_char(name[i]));
    }
}

/// A password that is too short, too long, a number, blank or one character over and
/// over is refused.
pub proof fn weak_passwords_are_refused(password: Seq<char>)
    ensures
        password.len() < 12 ==> !password_valid(password) && password_refusal(password)
            == Error::PasswordLength,
        encode_utf8(password).len() > 1024 ==> !password_valid(password) && password_refusal(
            password,
        ) == Error::PasswordLength,
        (forall|i: int|
            0 <= i < password.len() ==> '0' <= #[trigger] password[i] <= '9' || text::white_space(
                password[i],
            )) ==> !password_valid(password),
        (forall|i: int, j: int|
            0 <= i < password.len() && 0 <= j < password.len() ==> #[trigger] password[i]
                == #[trigger] password[j]) ==> !password_valid(password),
{
}

/// Any other password is accepted: twelve characters within 1024 bytes, one of them
/// neither a digit nor white space, and two of them different.
pub proof fn other_passwords_are_accepted(password: Seq<char>, i: int, j: int, k: int)
    requires
        password.len() >= 12,
        encode_utf8(password).len() <= 1024,
        0 <= i < password.len(),
        !('0' <= password[i] <= '9') && !text::white_space(password[i]),
        0 <= j < password.len(),
        0 <= k < password.len(),
        password[j] != password[k],
    ensures
        password_valid(password),
{
    assert(!text::digit(password[i]));
    if password[j] == password[0] {
        assert(password[k] != password[0]);
    }
}

/// A device has a name of 128 bytes at most, without control characters; a password is
/// tried where it has one to 1024 bytes.
pub proof fn device_names_and_tried_passwords(s: Seq<char>, i: int)
    ensures
        device_name_valid(s) ==> s.len() > 0 && encode_utf8(s).len() <= 128 && (0 <= i < s.len()
            ==> !text::control(s[i])),
        s.len() > 0 && encode_utf8(s).len() <= 128 && (forall|k: int|
            0 <= k < s.len() ==> !text::control(#[trigger] s[k])) ==> device_name_valid(s),
        login_password_valid(s) <==> 0 < encode_utf8(s).len() <= 1024,
{
}

// -------------------------------------------------------------------- messages

/// A sealed message is its nonce and what the cipher makes of the data, with a key for
/// this session and label and in this context.
pub proof fn what_is_sealed(
    session: Seq<u8>,
    label: Seq<u8>,
    context: Seq<u8>,
    nonce: Seq<u8>,
    data: Seq<u8>,
)
    requires
        nonce.len() == 12,
    ensures
        ({
            let key = crypto::hkdf_sha256_of(encode_utf8("TPAUTH01"@), session, label);
            let packet = sealed_packet(session, label, context, nonce, data);
            &&& packet.take(12) == nonce
            &&& packet.skip(12) == crypto::aead_sealed(key, nonce, context, data)
        }),
{
    let key = crypto::hkdf_sha256_of(encode_utf8("TPAUTH01"@), session, label);
    let packet = sealed_packet(session, label, context, nonce, data);
    assert(packet.take(12) =~= nonce);
    assert(packet.skip(12) =~= crypto::aead_sealed(key, nonce, context, data));
}

/// A message is opened with the key of the same session and label, the nonce that it
/// begins with and the same context; one that is too short for nonce and tag is not.
pub proof fn what_is_opened(
    session: Seq<u8>,
    label: Seq<u8>,
    context: Seq<u8>,
    packet: Seq<u8>,
)
    ensures
        opened_packet(session, label, context, packet) == if packet.len() < 12 + 16 {
            None
        } else {
            crypto::aead_opened(
                crypto::hkdf_sha256_of(encode_utf8("TPAUTH01"@), session, label),
                packet.subrange(0, 12),
                context,
                packet.subrange(12, packet.len() as int),
            )
        },
{
    if packet.len() >= 28 {
        assert(packet.subrange(0, 12) =~= packet.take(12));
        assert(packet.subrange(12, packet.len() as int) =~= packet.skip(12));
    }
}

/// Password proof and touch are bound to the hello, the host's fingerprint, the session
/// and a nonce, each in its place.
pub proof fn logins_are_bound(
    hello: Seq<u8>,
    fingerprint: Seq<char>,
    context: Seq<u8>,
    session: Seq<u8>,
    nonce: Seq<u8>,
)
    ensures
        context_of(hello, fingerprint) == crate::access::context_json_of(
            encode_utf8("TPAUTH01"@),
            hello,
            fingerprint,
        ),
        touch_hash_of(context, session, nonce) == crypto::sha256_of(
            encode_utf8("teleport/u2f/login/v1"@) + context + session + nonce,
        ),
{
}

// ------------------------------------------------------------- a password login

/// The proof is made against the registration of the account with the very name that was
/// given, under the policy of the moment, and with the key that is required then.
pub proof fn whose_password_is_proved(
    login: Login,
    state: ServerState,
    r: Result<(Login, Exchange), Error>,
)
    requires
        login.exchanged(state, r),
        r is Ok,
    ensures
        ({
            let hello = login.phase->Request_hello;
            let (next, exchange) = r->Ok_0;
            &&& state.record.account matches Some(account) ==> account.username@ == hello.username@
                ==> (exchange.registration matches Some(registration) && registration@
                == account.registration@)
            &&& state.record.account matches Some(account) ==> account.username@ != hello.username@
                ==> exchange.registration is None
            &&& state.record.account is None ==> exchange.registration is None
            &&& exchange.setup@ == state.record.setup@
            &&& next.phase matches Phase::Proof { hello: kept, generation, key, .. }
            &&& kept == hello
            &&& generation == state.record.generation
            &&& key is Some == state.record.u2f is Some
        }),
{
}

/// Where a security key is required when the proof begins, no login comes to its
/// credential without a touch, whatever the password; without a key none is asked for.
pub proof fn a_required_touch_is_never_passed_over(
    login: Login,
    state: ServerState,
    begun: Result<(Login, Exchange), Error>,
    session: Option<Vec<u8>>,
    r: Result<Login, Error>,
)
    requires
        login.exchanged(state, begun),
        begun is Ok,
        begun->Ok_0.0.proves(session, r),
    ensures
        session is None ==> r is Err && r->Err_0 == Error::LoginFailed,
        state.record.u2f is Some && r is Ok ==> r->Ok_0.phase is Challenge
            && login.phase->Request_hello.u2f,
        state.record.u2f is Some && session is Some && !login.phase->Request_hello.u2f ==> r is Err
            && r->Err_0 == Error::UpdateClient,
        state.record.u2f is None && session is Some ==> r is Ok && r->Ok_0.phase is Issue,
        r matches Ok(next) ==> (next.phase matches Phase::Challenge {
            hello,
            session: kept,
            generation,
            ..
        } ==> hello == login.phase->Request_hello && Some(kept) == session && generation
            == state.record.generation),
        r matches Ok(next) ==> (next.phase matches Phase::Issue {
            hello,
            session: kept,
            generation,
            ..
        } ==> hello == login.phase->Request_hello && Some(kept) == session && generation
            == state.record.generation),
{
}

/// A touch counts once: the counter must have moved on, and is remembered.
pub proof fn a_touch_counts_once(
    login: Login,
    before: ServerState,
    counter: Option<u32>,
    after: ServerState,
    r: Result<Login, Error>,
    again: ServerState,
    second: Result<Login, Error>,
)
    requires
        login.touches(before, counter, after, r),
        login.touches(after, counter, again, second),
    ensures
        r is Ok ==> login.phase is Touch && before.record.u2f is Some && counter is Some
            && before.record.u2f_counter < counter->0 && login.phase->Touch_generation
            == before.record.generation,
        r is Ok ==> after.record.u2f_counter == counter->0 && after.record.devices
            == before.record.devices && after.record.generation == before.record.generation,
        r is Ok ==> second is Err && again == after,
        r is Err ==> after == before,
        counter is None ==> r is Err,
{
}

/// A credential is issued to the device that asked, while the policy of the login stands;
/// it opens sessions from then on.
pub proof fn a_credential_is_issued(
    login: Login,
    before: ServerState,
    after: ServerState,
    r: Result<(Login, Pairing), Error>,
    now: u128,
)
    requires
        login.issues(before, after, r),
    ensures
        r is Ok <==> login.phase is Issue && login.phase->Issue_generation
            == before.record.generation && before.record.account is Some
            && before.record.devices@.len() < 128,
        r is Err ==> after == before,
        r matches Ok((next, pairing)) ==> {
            let n = before.record.devices@.len() as int;
            &&& after.record.devices@.len() == n + 1
            &&& after.record.devices@[n].summary.name@ == login.phase->Issue_hello.device_name@
            &&& after.record.devices@[n].summary.source@ == "password"@
            &&& a_device_has(after, pairing.token@)
            &&& pairing.fingerprint@ == before.legacy.fingerprint@
            &&& pairing.token@.len() == 64
        },
{
    if let Ok((next, pairing)) = r {
        let (id, created) = choose|id: Seq<char>, created: u64| #[trigger]
            after.added_device(
                &before,
                login.phase->Issue_hello.device_name@,
                "password"@,
                pairing.token@,
                id,
                created,
            );
        a_device_is_what_it_was_called(
            before,
            after,
            login.phase->Issue_hello.device_name@,
            "password"@,
            pairing.token@,
            id,
            created,
            0,
        );
        let n = before.record.devices@.len() as int;
        assert(after.record.devices@[n].token_hash@ == crypto::sha256_of(
            encode_utf8(pairing.token@),
        ));
    }
}

// ------------------------------------------------------------------- the record

/// A key is required from now on of everyone: its counter begins anew, and logins that
/// began before cannot end. It takes a password first, and a key that is acceptable.
pub proof fn a_key_is_required(
    before: ServerState,
    credential: Credential,
    acceptable: bool,
    after: ServerState,
    r: Result<(), Error>,
)
    requires
        before.key_required(credential, acceptable, after, r),
    ensures
        r is Ok ==> after.record.u2f == Some(credential) && after.record.u2f_counter == 0
            && after.record.generation == before.record.generation + 1 && after.record.account
            == before.record.account && after.record.devices == before.record.devices,
        !acceptable ==> r == Err::<(), Error>(Error::CredentialRefused),
        acceptable && before.record.account is None ==> r == Err::<(), Error>(
            Error::PasswordFirst,
        ),
        acceptable && before.record.account is Some && before.record.generation < u64::MAX ==> r
            is Ok,
        r is Err ==> after == before,
        r is Ok ==> !after.may_issue(before.record.generation),
{
}

/// Without a key, the rest of the record stays, and logins that began before cannot end.
pub proof fn a_key_is_dropped(before: ServerState, after: ServerState, r: Result<(), Error>)
    requires
        before.key_dropped(after, r),
    ensures
        r is Ok ==> after.record.u2f is None && after.record.generation
            == before.record.generation + 1 && after.record.account == before.record.account
            && after.record.devices == before.record.devices,
        before.record.generation < u64::MAX ==> r is Ok,
        r is Err ==> after == before,
        r is Ok ==> !after.may_issue(before.record.generation),
{
}

/// A session that ended takes its ticket with it, and no other.
pub proof fn a_ticket_is_spent(
    before: ServerState,
    lease: SessionLease,
    after: ServerState,
    other: SystemSession,
)
    requires
        before.given_back(lease, after),
    ensures
        other.hash@ == lease.hash@ ==> !after.system_sessions@.contains(other),
        other.hash@ != lease.hash@ ==> (after.system_sessions@.contains(other)
            <==> before.system_sessions@.contains(other)),
        after.record == before.record,
{
    let all = before.system_sessions@;
    let kept = all.filter(other_ticket(lease.hash@));
    crate::lists::filter_facts(all, other_ticket(lease.hash@));
    if kept.contains(other) {
        let i = choose|i: int| 0 <= i < kept.len() && kept[i] == other;
        assert(other_ticket(lease.hash@)(kept[i]));
        assert(all.contains(kept[i]));
    }
    if all.contains(other) && other.hash@ != lease.hash@ {
        let i = choose|i: int| 0 <= i < all.len() && all[i] == other;
        assert(other_ticket(lease.hash@)(all[i]));
        assert(kept.contains(all[i]));
    }
}

/// A device that was paired is the last of the list, under the name it gave, and comes from
/// pairing, so that a change of password does not touch it.
pub proof fn a_device_is_paired(
    before: ServerState,
    name: Seq<char>,
    after: ServerState,
    r: Result<Pairing, Error>,
)
    requires
        before.enrolled(name, after, r),
    ensures
        r matches Ok(pairing) ==> {
            let n = before.record.devices@.len() as int;
            &&& after.record.devices@.len() == n + 1
            &&& after.record.devices@[n].summary.name@ == name
            &&& after.record.devices@[n].summary.source@ == "pairing"@
            &&& a_device_has(after, pairing.token@)
            &&& pairing.token@.len() == 64
            &&& pairing.fingerprint@ == before.legacy.fingerprint@
            &&& n < 128
        },
        before.record.devices@.len() >= 128 ==> r is Err,
        r is Err ==> after == before,
{
    if let Ok(pairing) = r {
        let (id, created) = choose|id: Seq<char>, created: u64| #[trigger]
            after.added_device(&before, name, "pairing"@, pairing.token@, id, created);
        a_device_is_what_it_was_called(
            before,
            after,
            name,
            "pairing"@,
            pairing.token@,
            id,
            created,
            0,
        );
        let n = before.record.devices@.len() as int;
        assert(after.record.devices@[n].token_hash@ == crypto::sha256_of(
            encode_utf8(pairing.token@),
        ));
    }
}

/// A record is taken as it was stored, without tickets, and only whole.
pub proof fn a_record_is_opened(
    record: Record,
    legacy: Pairing,
    setup_valid: bool,
    registration_valid: bool,
    key_valid: bool,
    r: Result<ServerState, Error>,
)
    requires
        ServerState::opened(record, legacy, setup_valid, registration_valid, key_valid, r),
    ensures
        r matches Ok(state) ==> state.record == record && state.legacy == legacy
            && state.system_sessions@.len() == 0 && state.sources@.len() == 0,
        !setup_valid ==> r is Err,
        record.account is Some && !registration_valid ==> r is Err,
        record.u2f is Some && !key_valid ==> r is Err,
        legacy.token@.len() != 64 ==> r == Err::<ServerState, Error>(Error::PairingToken),
        legacy@.valid() && record.bounded() && record.hashes_valid() && setup_valid
            && record.account is None && record.u2f is None ==> r is Ok,
        legacy@.valid() && !record.bounded() ==> r == Err::<ServerState, Error>(
            Error::AccessDatabase,
        ),
        legacy@.valid() && record.bounded() && !setup_valid ==> r == Err::<ServerState, Error>(
            Error::StoredSetup,
        ),
        legacy@.valid() && record.bounded() && setup_valid && record.account is None
            && !record.hashes_valid() ==> r == Err::<ServerState, Error>(Error::StoredCredential),
        legacy@.valid() && record.bounded() && setup_valid && record.hashes_valid()
            && record.account is None && record.u2f is Some && !key_valid ==> r == Err::<
            ServerState,
            Error,
        >(Error::CredentialRefused),
        legacy@.valid() && record.bounded() && setup_valid && record.hashes_valid() && (
        record.account matches Some(account) && username_valid(account.username@))
            && registration_valid && (record.u2f is Some ==> key_valid) ==> r is Ok,
{
}

/// The user is told who may log in, whether a key is required, and of each device.
pub proof fn what_the_user_is_told(state: ServerState, status: AccessStatus, i: int)
    requires
        state.described(status),
        0 <= i < state.record.devices@.len(),
    ensures
        state.record.account matches Some(account) ==> (status.username matches Some(name) && name@
            == account.username@),
        state.record.account is None ==> status.username is None,
        status.u2f_required == state.record.u2f is Some,
        status.devices@.len() == state.record.devices@.len(),
        status.devices@[i].id@ == state.record.devices@[i].summary.id@,
        status.devices@[i].name@ == state.record.devices@[i].summary.name@,
        status.devices@[i].source@ == state.record.devices@[i].summary.source@,
        status.devices@[i].created_unix == state.record.devices@[i].summary.created_unix,
{
    assert(status.devices@[i].same(state.record.devices@[i].summary));
}

/// An attempt that is allowed is counted with its time; what is older than a minute is
/// forgotten, and what is not is kept. One that is refused is not counted.
pub proof fn what_an_attempt_leaves(
    before: ServerState,
    ip: Address,
    time: u64,
    after: ServerState,
    t: u64,
)
    requires
        after.attempted(&before, ip, time),
    ensures
        before.attempt_allowed(ip, time) ==> {
            &&& after.record.attempts@.len() > 0 && after.record.attempts@.last() == time
            &&& before.record.attempts@.contains(t) && t <= time && time - t < 60
                ==> after.record.attempts@.drop_last().contains(t)
            &&& t <= time && time - t >= 60 ==> !after.record.attempts@.drop_last().contains(t)
        },
        !before.attempt_allowed(ip, time) ==> after.record == before.record,
        after.record.devices == before.record.devices && after.record.account
            == before.record.account && after.record.generation == before.record.generation
            && after.system_sessions == before.system_sessions,
{
    let all = before.record.attempts@;
    let kept = all.filter(recent(time));
    crate::lists::filter_facts(all, recent(time));
    if before.attempt_allowed(ip, time) {
        assert(after.record.attempts@.drop_last() =~= kept);
        if kept.contains(t) {
            let i = choose|i: int| 0 <= i < kept.len() && kept[i] == t;
            assert(recent(time)(kept[i]));
        }
        if all.contains(t) && t <= time && time - t < 60 {
            let i = choose|i: int| 0 <= i < all.len() && all[i] == t;
            assert(recent(time)(all[i]));
            assert(kept.contains(all[i]));
        }
    }
}

/// A packet announces the length of what follows in two bytes.
pub proof fn packets_announce_their_length(data: Seq<u8>)
    requires
        data.len() < 65_536,
    ensures
        crate::access::packet_of(data).len() == 2 + data.len(),
        crate::laws::numerals::read_bytes(crate::access::packet_of(data).take(2)) == data.len(),
        crate::access::packet_of(data).skip(2) == data,
        crate::pairing::packet_of(data) == crate::access::packet_of(data),
{
    crate::laws::numerals::lengths_are_read_again(data.len());
    let packet = crate::access::packet_of(data);
    assert(packet.take(2) =~= crate::wire::be16(data.len()));
    assert(packet.skip(2) =~= data);
}

/// A token has a ticket where one of the tickets, dead or alive, is of that token.
pub proof fn which_tokens_have_tickets(state: ServerState, token: Seq<char>, i: int)
    ensures
        0 <= i < state.system_sessions@.len() && state.system_sessions@[i].hash@
            == crypto::sha256_of(encode_utf8(token)) ==> state.ticketed(token),
        (forall|k: int|
            0 <= k < state.system_sessions@.len() ==> (#[trigger] state.system_sessions@[k]).hash@
                != crypto::sha256_of(encode_utf8(token))) ==> !state.ticketed(token),
{
}

/// A login begins with a user name and a device name, both of which must be in order.
pub proof fn what_a_login_begins_with(hello: Hello)
    ensures
        hello.valid() <==> username_valid(hello.username@) && device_name_valid(
            hello.device_name@,
        ),
        hello.valid() ==> 1 <= hello.username@.len() <= 64,
{
    user_names(hello.username@, 0);
}

/// A login is bound to its hello and to the host, and a hello that is not in order ends it.
pub proof fn where_a_hello_leads(
    login: Login,
    bytes: Seq<u8>,
    hello: Hello,
    fingerprint: Seq<char>,
    r: Result<Login, Error>,
)
    requires
        login.greeted(bytes, hello, fingerprint, r),
    ensures
        r is Ok <==> login.phase is Hello && username_valid(hello.username@) && device_name_valid(
            hello.device_name@,
        ),
        r matches Ok(next) ==> (next.phase matches Phase::Request { hello: kept, context } && kept
            == hello && context@ == context_of(bytes, fingerprint)),
        login.phase is Hello && !username_valid(hello.username@) ==> r is Err && r->Err_0
            == Error::Username,
        login.phase is Hello && username_valid(hello.username@) && !device_name_valid(
            hello.device_name@,
        ) ==> r is Err && r->Err_0 == Error::DeviceName,
        !(login.phase is Hello) ==> r is Err && r->Err_0 == Error::LoginOrder,
{
}

/// A touch is asked of the key that the login found, under the nonce, and nothing of the
/// login is lost.
pub proof fn which_touch_is_asked_for(
    login: Login,
    nonce: Seq<u8>,
    r: Result<(Login, Credential), Error>,
)
    requires
        login.challenged(nonce, r),
    ensures
        r is Ok <==> login.phase is Challenge,
        r matches Ok((next, key)) ==> {
            &&& key == login.phase->Challenge_key
            &&& next.phase matches Phase::Touch { hello, context, session, generation, hash }
            &&& hello == login.phase->Challenge_hello
            &&& session == login.phase->Challenge_session
            &&& context == login.phase->Challenge_context
            &&& generation == login.phase->Challenge_generation
            &&& hash@ == crypto::sha256_of(
                encode_utf8("teleport/u2f/login/v1"@) + context@ + session@ + nonce,
            )
        },
{
}

} // verus!
