//! The forwarding of an SSH agent, where both sides have asked for it. Only two
//! requests pass: the list of identities, and a signature for an SSH login with a
//! public key. Both ends check, since neither trusts the other to.
use crate::crypto;
use crate::error::Error;
use crate::text;
use crate::wire;
use vstd::prelude::*;
use vstd::utf8::encode_utf8;

verus! {

pub const REQUEST_TRACK: &'static str = "ssh-agent-requests-v1";

pub const RESPONSE_TRACK: &'static str = "ssh-agent-responses-v1";

pub const MAX_PACKET: usize = 65536;

/// How long an operation may take, and the pause before each, in nanoseconds.
pub const TIMEOUT: u128 = 60_000_000_000;

pub const PAUSE: u128 = 100_000_000;

/// What the agent answers where it refuses.
pub const FAILURE: u8 = 5;

pub const REQUEST_IDENTITIES: u8 = 11;

pub const IDENTITIES: u8 = 12;

pub const SIGN_REQUEST: u8 = 13;

pub const SIGN_RESPONSE: u8 = 14;

/// The kind of a message that asks for a login.
pub const USERAUTH: u8 = 50;

pub const CONNECTION: &'static str = "ssh-connection";

pub const PUBLIC_KEY: &'static str = "publickey";

// -------------------------------------------------------------------- grammar

/// A string: its length in four bytes and then its contents.
pub open spec fn field(value: Seq<u8>) -> Seq<u8> {
    wire::be32(value.len()) + value
}

/// What an SSH login with a public key has the client sign.
pub open spec fn login_data(
    session: Seq<u8>,
    user: Seq<u8>,
    algorithm: Seq<u8>,
    key: Seq<u8>,
) -> Seq<u8> {
    field(session) + (seq![USERAUTH] + (field(user) + (field(encode_utf8(CONNECTION@)) + (field(
        encode_utf8(PUBLIC_KEY@),
    ) + (seq![1u8] + (field(algorithm) + field(key)))))))
}

/// The request for such a signature, with the flags for RSA or none.
pub open spec fn login_request(
    session: Seq<u8>,
    user: Seq<u8>,
    algorithm: Seq<u8>,
    key: Seq<u8>,
    flag: u8,
) -> Seq<u8> {
    seq![SIGN_REQUEST] + (field(key) + (field(login_data(session, user, algorithm, key)) + seq![
        0u8,
        0u8,
        0u8,
        flag,
    ]))
}

pub open spec fn within_limits(session: Seq<u8>, user: Seq<u8>, algorithm: Seq<u8>, flag: u8) -> bool {
    &&& 16 <= session.len() <= 64
    &&& 1 <= user.len() <= 256
    &&& 1 <= algorithm.len() <= 128
    &&& flag == 0 || flag == 2 || flag == 4
}

/// The packet asks for the signature of this login.
pub open spec fn asks_for(
    packet: Seq<u8>,
    session: Seq<u8>,
    user: Seq<u8>,
    algorithm: Seq<u8>,
    key: Seq<u8>,
    flag: u8,
) -> bool {
    within_limits(session, user, algorithm, flag) && packet == login_request(
        session,
        user,
        algorithm,
        key,
        flag,
    )
}

/// A request for a signature that passes: one for a login, by the very key that is
/// to sign.
pub open spec fn is_login_request(packet: Seq<u8>) -> bool {
    packet.len() <= MAX_PACKET && exists|
        session: Seq<u8>,
        user: Seq<u8>,
        algorithm: Seq<u8>,
        key: Seq<u8>,
        flag: u8,
    |
        asks_for(packet, session, user, algorithm, key, flag)
}

pub open spec fn permitted(packet: Seq<u8>) -> bool {
    packet == seq![REQUEST_IDENTITIES] || is_login_request(packet)
}

// -------------------------------------------------------------------- parsing

/// The input begins with a string.
#[verifier::opaque]
pub open spec fn parses(input: Seq<u8>) -> bool {
    input.len() >= 4 && 4 + wire::from_be32(input.take(4)) <= input.len()
}

/// That string, and what follows it.
#[verifier::opaque]
pub open spec fn head(input: Seq<u8>) -> Seq<u8> {
    input.subrange(4, 4 + wire::from_be32(input.take(4)) as int)
}

#[verifier::opaque]
pub open spec fn tail(input: Seq<u8>) -> Seq<u8> {
    input.skip(4 + wire::from_be32(input.take(4)) as int)
}

proof fn field_is_parsed(value: Seq<u8>, rest: Seq<u8>)
    requires
        value.len() < 4_294_967_296,
    ensures
        parses(field(value) + rest),
        head(field(value) + rest) == value,
        tail(field(value) + rest) == rest,
{
    reveal(parses);
    reveal(head);
    reveal(tail);
    let input = field(value) + rest;
    wire::be32_round_trip(value.len());
    assert(input.take(4) =~= wire::be32(value.len()));
    assert(head(input) =~= value);
    assert(tail(input) =~= rest);
}

proof fn parsed_is_field(input: Seq<u8>)
    requires
        parses(input),
    ensures
        input == field(head(input)) + tail(input),
{
    reveal(parses);
    reveal(head);
    reveal(tail);
    wire::be32_is_unique(input.take(4));
    assert(head(input).len() == wire::from_be32(input.take(4)));
    assert(input =~= field(head(input)) + tail(input));
}

/// The data is what a login with this key has signed, read from the left.
pub open spec fn reads_as_login(data: Seq<u8>, key: Seq<u8>) -> bool {
    let d1 = tail(data);
    let d2 = d1.skip(1);
    let d3 = tail(d2);
    let d4 = tail(d3);
    let d5 = tail(d4);
    let d6 = d5.skip(1);
    let d7 = tail(d6);
    &&& parses(data)
    &&& 16 <= head(data).len() <= 64
    &&& d1.len() > 0 && d1[0] == USERAUTH
    &&& parses(d2)
    &&& 1 <= head(d2).len() <= 256
    &&& parses(d3)
    &&& head(d3) == encode_utf8(CONNECTION@)
    &&& parses(d4)
    &&& head(d4) == encode_utf8(PUBLIC_KEY@)
    &&& d5.len() > 0 && d5[0] == 1
    &&& parses(d6)
    &&& 1 <= head(d6).len() <= 128
    &&& parses(d7)
    &&& head(d7) == key
    &&& tail(d7).len() == 0
}

pub open spec fn flags_valid(flags: Seq<u8>) -> bool {
    flags.len() == 4 && flags[0] == 0 && flags[1] == 0 && flags[2] == 0 && (flags[3] == 0
        || flags[3] == 2 || flags[3] == 4)
}

/// The packet is a request that passes, read from the left.
pub open spec fn reads_as_request(packet: Seq<u8>) -> bool {
    let r1 = packet.skip(1);
    let r2 = tail(r1);
    &&& 1 <= packet.len() <= MAX_PACKET
    &&& packet[0] == SIGN_REQUEST
    &&& parses(r1)
    &&& parses(r2)
    &&& flags_valid(tail(r2))
    &&& reads_as_login(head(r2), head(r1))
}

proof fn login_is_read(session: Seq<u8>, user: Seq<u8>, algorithm: Seq<u8>, key: Seq<u8>)
    requires
        16 <= session.len() <= 64,
        1 <= user.len() <= 256,
        1 <= algorithm.len() <= 128,
        key.len() < 4_294_967_296,
    ensures
        reads_as_login(login_data(session, user, algorithm, key), key),
{
    let connection = encode_utf8(CONNECTION@);
    let public_key = encode_utf8(PUBLIC_KEY@);
    names_are_short();
    let d7 = field(key);
    let d6 = field(algorithm) + d7;
    let d5 = seq![1u8] + d6;
    let d4 = field(public_key) + d5;
    let d3 = field(connection) + d4;
    let d2 = field(user) + d3;
    let d1 = seq![USERAUTH] + d2;
    let data = field(session) + d1;
    field_is_parsed(session, d1);
    assert(d1.skip(1) =~= d2);
    field_is_parsed(user, d3);
    field_is_parsed(connection, d4);
    field_is_parsed(public_key, d5);
    assert(d5.skip(1) =~= d6);
    field_is_parsed(algorithm, d7);
    field_is_parsed(key, Seq::empty());
    assert(field(key) + Seq::<u8>::empty() =~= d7);
}

proof fn names_are_short()
    ensures
        encode_utf8(CONNECTION@).len() == 14,
        encode_utf8(PUBLIC_KEY@).len() == 9,
{
    reveal_strlit("ssh-connection");
    reveal_strlit("publickey");
    vstd::utf8::is_ascii_chars_encode_utf8(CONNECTION@);
    vstd::utf8::is_ascii_chars_encode_utf8(PUBLIC_KEY@);
}

spec fn is_data_of(
    data: Seq<u8>,
    session: Seq<u8>,
    user: Seq<u8>,
    algorithm: Seq<u8>,
    key: Seq<u8>,
) -> bool {
    data == login_data(session, user, algorithm, key)
}

proof fn read_is_login(data: Seq<u8>, key: Seq<u8>) -> (parts: (Seq<u8>, Seq<u8>, Seq<u8>))
    requires
        reads_as_login(data, key),
    ensures
        is_data_of(data, parts.0, parts.1, parts.2, key),
        within_limits(parts.0, parts.1, parts.2, 0),
{
    let d1 = tail(data);
    let d2 = d1.skip(1);
    let d3 = tail(d2);
    let d4 = tail(d3);
    let d5 = tail(d4);
    let d6 = d5.skip(1);
    let d7 = tail(d6);
    parsed_is_field(data);
    assert(d1 =~= seq![USERAUTH] + d2);
    parsed_is_field(d2);
    parsed_is_field(d3);
    parsed_is_field(d4);
    assert(d5 =~= seq![1u8] + d6);
    parsed_is_field(d6);
    parsed_is_field(d7);
    assert(tail(d7) =~= Seq::<u8>::empty());
    assert(field(key) + Seq::<u8>::empty() =~= field(key));
    (head(data), head(d2), head(d6))
}

proof fn read_passes(packet: Seq<u8>)
    requires
        reads_as_request(packet),
    ensures
        is_login_request(packet),
{
    let r1 = packet.skip(1);
    let key = head(r1);
    let r2 = tail(r1);
    let data = head(r2);
    let flags = tail(r2);
    parsed_is_field(r1);
    parsed_is_field(r2);
    let (session, user, algorithm) = read_is_login(data, key);
    assert(flags =~= seq![0u8, 0u8, 0u8, flags[3]]);
    assert(packet =~= seq![SIGN_REQUEST] + r1);
    assert(asks_for(packet, session, user, algorithm, key, flags[3]));
}

proof fn passes_is_read(packet: Seq<u8>)
    requires
        is_login_request(packet),
    ensures
        reads_as_request(packet),
{
    let (session, user, algorithm, key, flag) = choose|
        session: Seq<u8>,
        user: Seq<u8>,
        algorithm: Seq<u8>,
        key: Seq<u8>,
        flag: u8,
    |
        asks_for(packet, session, user, algorithm, key, flag);
    let data = login_data(session, user, algorithm, key);
    let flags = seq![0u8, 0u8, 0u8, flag];
    let r2 = field(data) + flags;
    let r1 = field(key) + r2;
    assert(packet.skip(1) =~= r1);
    assert(packet.len() == 1 + 4 + key.len() + 4 + data.len() + 4);
    field_is_parsed(key, r2);
    field_is_parsed(data, flags);
    login_is_read(session, user, algorithm, key);
}

/// Reading from the left recognises exactly the requests that pass.
proof fn reading_is_exact(packet: Seq<u8>)
    ensures
        reads_as_request(packet) <==> is_login_request(packet),
{
    if reads_as_request(packet) {
        read_passes(packet);
    }
    if is_login_request(packet) {
        passes_is_read(packet);
    }
}

/// Takes a string from the beginning of the input.
fn string<'a>(input: &mut &'a [u8]) -> (r: Option<&'a [u8]>)
    ensures
        r is Some <==> parses(old(input)@),
        r matches Some(value) ==> value@ == head(old(input)@) && final(input)@ == tail(old(input)@),
        r is None ==> final(input)@ == old(input)@,
{
    proof {
        reveal(parses);
        reveal(head);
        reveal(tail);
    }
    let bytes: &'a [u8] = *input;
    if bytes.len() < 4 {
        return None;
    }
    let length: u32 = wire::read_be32(bytes, 0);
    assert(bytes@.subrange(0, 4) =~= bytes@.take(4));
    if length as usize > bytes.len() - 4 {
        return None;
    }
    let end: usize = 4 + length as usize;
    let value = wire::slice(bytes, 4, end);
    let rest = wire::slice(bytes, end, bytes.len());
    assert(rest@ =~= tail(bytes@));
    *input = rest;
    Some(value)
}

/// The byte at the beginning of the input is taken, if it is this one.
fn byte(input: &mut &[u8], wanted: u8) -> (r: bool)
    ensures
        r <==> old(input)@.len() > 0 && old(input)@[0] == wanted,
        r ==> final(input)@ == old(input)@.skip(1),
{
    let bytes: &[u8] = *input;
    if bytes.len() == 0 || bytes[0] != wanted {
        return false;
    }
    let rest = wire::slice(bytes, 1, bytes.len());
    assert(rest@ =~= bytes@.skip(1));
    *input = rest;
    true
}

fn is_login(data: &[u8], key: &[u8]) -> (r: bool)
    ensures
        r == reads_as_login(data@, key@),
{
    let mut data = data;
    let session = match string(&mut data) {
        Some(session) => session,
        None => return false,
    };
    if session.len() < 16 || session.len() > 64 || !byte(&mut data, USERAUTH) {
        return false;
    }
    match string(&mut data) {
        Some(user) => {
            if user.len() < 1 || user.len() > 256 {
                return false;
            }
        },
        None => return false,
    }
    match string(&mut data) {
        Some(service) => {
            if !text::same_bytes(service, CONNECTION.as_bytes()) {
                return false;
            }
        },
        None => return false,
    }
    match string(&mut data) {
        Some(method) => {
            if !text::same_bytes(method, PUBLIC_KEY.as_bytes()) {
                return false;
            }
        },
        None => return false,
    }
    if !byte(&mut data, 1) {
        return false;
    }
    match string(&mut data) {
        Some(algorithm) => {
            if algorithm.len() < 1 || algorithm.len() > 128 {
                return false;
            }
        },
        None => return false,
    }
    match string(&mut data) {
        Some(signer) => text::same_bytes(signer, key) && data.len() == 0,
        None => false,
    }
}

/// Whether a request passes.
pub fn allowed(packet: &[u8]) -> (r: bool)
    ensures
        r == permitted(packet@),
{
    proof {
        reading_is_exact(packet@);
    }
    if packet.len() == 1 && packet[0] == REQUEST_IDENTITIES {
        assert(packet@ =~= seq![REQUEST_IDENTITIES]);
        return true;
    }
    assert(packet@ != seq![REQUEST_IDENTITIES]) by {
        if packet@ == seq![REQUEST_IDENTITIES] {
            assert(packet@.len() == 1 && packet@[0] == REQUEST_IDENTITIES);
        }
    }
    if packet.len() == 0 || packet.len() > MAX_PACKET || packet[0] != SIGN_REQUEST {
        return false;
    }
    let mut request = wire::slice(packet, 1, packet.len());
    assert(request@ =~= packet@.skip(1));
    let key = match string(&mut request) {
        Some(key) => key,
        None => return false,
    };
    let data = match string(&mut request) {
        Some(data) => data,
        None => return false,
    };
    if !(request.len() == 4 && request[0] == 0 && request[1] == 0 && request[2] == 0 && (request[3]
        == 0 || request[3] == 2 || request[3] == 4)) {
        return false;
    }
    is_login(data, key)
}

// -------------------------------------------------------------------- packets

pub open spec fn size_valid(size: int) -> bool {
    1 <= size <= MAX_PACKET
}

pub fn check_size(size: usize) -> (r: Result<(), Error>)
    ensures
        r is Ok <==> size_valid(size as int),
        r matches Err(e) ==> e == Error::AgentPacketSize,
{
    if size >= 1 && size <= MAX_PACKET {
        Ok(())
    } else {
        Err(Error::AgentPacketSize)
    }
}

pub fn frame_packet(packet: &[u8]) -> (r: Result<Vec<u8>, Error>)
    ensures
        r is Ok <==> size_valid(packet@.len() as int),
        r matches Ok(bytes) ==> bytes@ == field(packet@),
        r matches Err(e) ==> e == Error::AgentPacketSize,
{
    match check_size(packet.len()) {
        Ok(()) => {},
        Err(e) => return Err(e),
    }
    let mut out: Vec<u8> = Vec::new();
    wire::push_be32(&mut out, packet.len() as u32);
    out.extend_from_slice(packet);
    assert(out@ =~= field(packet@));
    Ok(out)
}

/// How many bytes of a packet follow its length.
pub fn packet_length(header: [u8; 4]) -> (r: Result<usize, Error>)
    ensures
        r is Ok <==> size_valid(wire::from_be32(header@) as int),
        r matches Ok(n) ==> n == wire::from_be32(header@),
        r matches Err(e) ==> e == Error::AgentPacketSize,
{
    let n: u32 = wire::read_be32(header.as_slice(), 0);
    assert(header@.subrange(0, 4) =~= header@);
    match check_size(n as usize) {
        Ok(()) => Ok(n as usize),
        Err(e) => Err(e),
    }
}

/// The packets that arrive, one in each group.
pub struct Reader {
    pub sequence: u64,
}

impl Reader {
    pub fn new() -> (r: Self)
        ensures
            r.sequence == 0,
    {
        Reader { sequence: 0 }
    }

    /// The group with the next number has come.
    pub fn advance(&mut self) -> (r: Result<(), Error>)
        ensures
            r is Ok <==> old(self).sequence < u64::MAX,
            r is Ok ==> final(self).sequence == old(self).sequence + 1,
            r matches Err(e) ==> e == Error::AgentSequence && *final(self) == *old(self),
    {
        match self.sequence.checked_add(1) {
            Some(next) => {
                self.sequence = next;
                Ok(())
            },
            None => Err(Error::AgentSequence),
        }
    }

    /// What the group held: its first frame, and whether there was another.
    pub fn check_group(first: Option<&[u8]>, another: bool) -> (r: Result<(), Error>)
        ensures
            r is Ok <==> (first matches Some(packet) && packet@.len() > 0) && !another,
            r matches Err(e) ==> e == if first is None {
                Error::AgentEmptyGroup
            } else if first->0@.len() == 0 {
                Error::AgentEmptyPacket
            } else {
                Error::AgentExtraFrame
            },
    {
        match first {
            None => return Err(Error::AgentEmptyGroup),
            Some(packet) => {
                if packet.len() == 0 {
                    return Err(Error::AgentEmptyPacket);
                }
            },
        }
        if another {
            return Err(Error::AgentExtraFrame);
        }
        Ok(())
    }
}

pub fn failure() -> (r: Vec<u8>)
    ensures
        r@ == seq![FAILURE],
{
    let mut out: Vec<u8> = Vec::new();
    out.push(FAILURE);
    assert(out@ =~= seq![FAILURE]);
    out
}

/// The agent that the user has named, which must be a socket.
pub fn agent_path(named: Option<String>, socket: bool) -> (r: Result<String, Error>)
    ensures
        r is Ok <==> named is Some && socket,
        r matches Ok(path) ==> named == Some(path),
        r matches Err(e) ==> e == if named is None {
            Error::AgentSocketMissing
        } else {
            Error::AgentSocketKind
        },
{
    match named {
        None => Err(Error::AgentSocketMissing),
        Some(path) => if socket {
            Ok(path)
        } else {
            Err(Error::AgentSocketKind)
        },
    }
}

/// Whoever connects to the socket at the host must be the user too.
pub fn check_peer(peer: u32, user: u32) -> (r: Result<(), Error>)
    ensures
        r is Ok <==> peer == user,
        r matches Err(e) ==> e == Error::AgentPeer,
{
    if peer == user {
        Ok(())
    } else {
        Err(Error::AgentPeer)
    }
}

/// The agent must be the user's own.
pub fn check_owner(peer: u32, user: u32) -> (r: Result<(), Error>)
    ensures
        r is Ok <==> peer == user,
        r matches Err(e) ==> e == Error::AgentOwner,
{
    if peer == user {
        Ok(())
    } else {
        Err(Error::AgentOwner)
    }
}

/// What the agent may answer to a request: a refusal, or what was asked for.
pub open spec fn answers(request: Seq<u8>, response: Seq<u8>) -> bool {
    response == seq![FAILURE] || request[0] == REQUEST_IDENTITIES && response[0] == IDENTITIES
        || request[0] == SIGN_REQUEST && response[0] == SIGN_RESPONSE
}

pub fn check_response(request: &[u8], response: &[u8]) -> (r: Result<(), Error>)
    requires
        request@.len() > 0,
        response@.len() > 0,
    ensures
        r is Ok <==> answers(request@, response@),
        r matches Err(e) ==> e == Error::AgentResponse,
{
    let refused = response.len() == 1 && response[0] == FAILURE;
    assert(refused <==> response@ == seq![FAILURE]) by {
        if refused {
            assert(response@ =~= seq![FAILURE]);
        }
    }
    if refused || (request[0] == REQUEST_IDENTITIES && response[0] == IDENTITIES) || (request[0]
        == SIGN_REQUEST && response[0] == SIGN_RESPONSE) {
        Ok(())
    } else {
        Err(Error::AgentResponse)
    }
}

// ------------------------------------------------------------------ the socket

/// The directory of the socket at the host, by a number. Its parent is fixed and
/// short, so that the socket's path is short too.
pub open spec fn directory_path(n: u128) -> Seq<char> {
    "/tmp/teleport-agent-"@ + text::number_hex((n / 0x1_0000_0000_0000_0000) as u64)
        + text::number_hex((n % 0x1_0000_0000_0000_0000) as u64)
}

/// The socket at the host, and what it was when it was made.
pub struct SocketDirectory {
    pub path: String,
    pub socket_identity: Option<(u64, u64)>,
}

impl SocketDirectory {
    pub fn named(n: u128) -> (r: Self)
        ensures
            r.path@ == directory_path(n),
            r.socket_identity is None,
    {
        let high = text::format_number((n / 0x1_0000_0000_0000_0000) as u64);
        let low = text::format_number((n % 0x1_0000_0000_0000_0000) as u64);
        let mut path = String::new();
        path.push_str("/tmp/teleport-agent-");
        path.push_str(high.as_str());
        path.push_str(low.as_str());
        assert(path@ =~= directory_path(n));
        SocketDirectory { path, socket_identity: None }
    }

    /// A directory that nobody can guess. Which one depends on chance.
    pub fn create() -> (r: Self)
        ensures
            exists|n: u128| r.path@ == #[trigger] directory_path(n),
            r.socket_identity is None,
    {
        Self::named(crypto::random_u128())
    }

    pub fn socket(&self) -> (r: String)
        ensures
            r@ == self.path@ + "/agent.sock"@,
    {
        let mut out = String::new();
        out.push_str(self.path.as_str());
        out.push_str("/agent.sock");
        assert(out@ =~= self.path@ + "/agent.sock"@);
        out
    }

    /// The socket was made on this device, with this number.
    pub fn remember_socket(&mut self, device: u64, inode: u64)
        ensures
            *final(self) == (SocketDirectory {
                socket_identity: Some((device, inode)),
                ..*old(self)
            }),
    {
        self.socket_identity = Some((device, inode));
    }

    /// Whether what is there now is still the socket that was made; only that is
    /// removed.
    pub fn still_ours(&self, found: Option<(u64, u64)>) -> (r: bool)
        ensures
            r <==> found is Some && found == self.socket_identity,
    {
        match found {
            Some((device, inode)) => match self.socket_identity {
                Some((d, i)) => d == device && i == inode,
                None => false,
            },
            None => false,
        }
    }
}

// ----------------------------------------------------------------------- laws

/// Nothing passes but a list of identities and a signature for a login: no change
/// to the agent and no extension of its protocol, whose requests begin otherwise.
pub proof fn only_lists_and_logins_pass(packet: Seq<u8>)
    requires
        permitted(packet),
    ensures
        1 <= packet.len() <= MAX_PACKET,
        packet[0] == REQUEST_IDENTITIES || packet[0] == SIGN_REQUEST,
{
    reading_is_exact(packet);
}

proof fn prefix_parses_alike(input: Seq<u8>, n: int)
    requires
        0 <= n <= input.len(),
        parses(input.take(n)),
    ensures
        parses(input),
        head(input.take(n)) == head(input),
        tail(input.take(n)) == tail(input).take(n - (input.len() - tail(input).len())),
        input.len() - tail(input).len() <= n,
{
    reveal(parses);
    reveal(head);
    reveal(tail);
    let cut = input.take(n);
    assert(cut.take(4) =~= input.take(4));
    assert(head(cut) =~= head(input));
    assert(tail(cut) =~= tail(input).take(n - (input.len() - tail(input).len())));
}

/// A request that was cut short does not pass.
pub proof fn truncated_requests_are_refused(packet: Seq<u8>, n: int)
    requires
        permitted(packet),
        0 <= n < packet.len(),
    ensures
        !permitted(packet.take(n)),
{
    reading_is_exact(packet);
    let cut = packet.take(n);
    reading_is_exact(cut);
    if cut == seq![REQUEST_IDENTITIES] {
        assert(cut.len() == 1);
        assert(cut[0] == packet[0]);
        assert(packet.len() > 1);
    }
    if reads_as_request(cut) {
        let r1 = packet.skip(1);
        assert(cut.skip(1) =~= r1.take(n - 1));
        assert(packet[0] == cut[0]);
        prefix_parses_alike(r1, n - 1);
        let r2 = tail(r1);
        let m = n - 1 - (r1.len() - r2.len());
        prefix_parses_alike(r2, m);
        assert(tail(r2).len() == 4);
    }
}

} // verus!
