//! Logins with an account of the host's operating system, inside a connection that
//! is pinned to the host's identity. What such a login gives is good for one
//! session and is never saved.
use crate::access::server::ServerState;
use crate::error::Error;
use crate::protocol::{
    self, fingerprint_at, fingerprint_bytes, fingerprint_form, same_certificate, Pairing,
};
use crate::text;
use crate::wire;
use vstd::prelude::*;
use vstd::utf8::{decode_utf8, encode_utf8, valid_utf8};

verus! {

/// What a connection begins with, and the name of the protocol inside it.
pub const MAGIC: &'static str = "TPSYS001";

pub const ALPN: &'static str = "teleport-system-login/1";

pub const MAX_FRAME: usize = 4096;

/// How long the handshake, and the whole login, may take, in nanoseconds.
pub const HANDSHAKE_TIMEOUT: u128 = 5_000_000_000;

pub const LOGIN_TIMEOUT: u128 = 45_000_000_000;

/// The length of the answer to a login that succeeded.
pub const REPLY: usize = 129;

// --------------------------------------------------------------------- frames

/// A frame is its length in four bytes and then its data, of which there is some.
pub open spec fn frame_of(data: Seq<u8>) -> Seq<u8> {
    wire::be32(data.len()) + data
}

pub fn write_frame(data: &[u8]) -> (r: Result<Vec<u8>, Error>)
    ensures
        r is Ok <==> 1 <= data@.len() <= MAX_FRAME,
        r matches Ok(frame) ==> frame@ == frame_of(data@),
        r matches Err(e) ==> e == Error::SystemFrame,
{
    if data.len() == 0 || data.len() > MAX_FRAME {
        return Err(Error::SystemFrame);
    }
    let mut out: Vec<u8> = Vec::new();
    wire::push_be32(&mut out, data.len() as u32);
    out.extend_from_slice(data);
    assert(out@ =~= frame_of(data@));
    Ok(out)
}

/// How many bytes of data follow the length of a frame.
pub fn frame_length(header: [u8; 4]) -> (r: Result<usize, Error>)
    ensures
        r is Ok <==> 1 <= wire::from_be32(header@) <= MAX_FRAME,
        r matches Ok(n) ==> n == wire::from_be32(header@),
        r matches Err(e) ==> e == Error::SystemFrame,
{
    let n: u32 = wire::read_be32(header.as_slice(), 0);
    assert(header@.subrange(0, 4) =~= header@);
    if n > 0 && n as usize <= MAX_FRAME {
        Ok(n as usize)
    } else {
        Err(Error::SystemFrame)
    }
}

// ---------------------------------------------------------------- credentials

pub open spec fn username_valid(username: Seq<char>) -> bool {
    1 <= encode_utf8(username).len() <= 256 && !username.contains('\0')
}

pub open spec fn password_valid(password: Seq<char>) -> bool {
    1 <= encode_utf8(password).len() <= 2048 && !password.contains('\0')
}

pub fn validate_credentials(username: &str, password: &str) -> (r: Result<(), Error>)
    ensures
        r is Ok <==> username_valid(username@) && password_valid(password@),
        r matches Err(e) ==> e == Error::SystemCredentials,
{
    let name: usize = text::byte_len(username);
    let secret: usize = text::byte_len(password);
    if name >= 1 && name <= 256 && !text::contains(username, '\0') && secret >= 1 && secret <= 2048
        && !text::contains(password, '\0') {
        Ok(())
    } else {
        Err(Error::SystemCredentials)
    }
}

/// User name and password as they are sent: the length of the name in two bytes,
/// and then both.
pub open spec fn request_of(username: Seq<char>, password: Seq<char>) -> Seq<u8> {
    wire::be16(encode_utf8(username).len()) + (encode_utf8(username) + encode_utf8(password))
}

pub fn request(username: &str, password: &str) -> (r: Result<Vec<u8>, Error>)
    ensures
        r is Ok <==> username_valid(username@) && password_valid(password@),
        r matches Ok(bytes) ==> bytes@ == request_of(username@, password@),
        r matches Err(e) ==> e == Error::SystemCredentials,
{
    match validate_credentials(username, password) {
        Ok(()) => {},
        Err(e) => return Err(e),
    }
    let mut out: Vec<u8> = Vec::new();
    wire::push_be16(&mut out, text::byte_len(username) as u16);
    out.extend_from_slice(username.as_bytes());
    out.extend_from_slice(password.as_bytes());
    assert(out@ =~= request_of(username@, password@));
    Ok(out)
}

/// The bytes are those of some valid user name and password.
pub open spec fn is_request(bytes: Seq<u8>) -> bool {
    exists|username: Seq<char>, password: Seq<char>|
        username_valid(username) && password_valid(password) && bytes == #[trigger] request_of(
            username,
            password,
        )
}

/// The two texts in the bytes can be read in one way only.
pub proof fn requests_are_unambiguous(a: Seq<char>, b: Seq<char>, c: Seq<char>, d: Seq<char>)
    requires
        username_valid(a),
        username_valid(c),
        request_of(a, b) == request_of(c, d),
    ensures
        a == c,
        b == d,
{
    let ea = encode_utf8(a);
    let ec = encode_utf8(c);
    let bytes = request_of(a, b);
    wire::be16_round_trip(ea.len());
    wire::be16_round_trip(ec.len());
    assert(bytes.take(2) =~= wire::be16(ea.len()));
    assert(request_of(c, d).take(2) =~= wire::be16(ec.len()));
    assert(bytes.subrange(2, 2 + ea.len() as int) =~= ea);
    assert(request_of(c, d).subrange(2, 2 + ec.len() as int) =~= ec);
    assert(bytes.skip(2 + ea.len() as int) =~= encode_utf8(b));
    assert(request_of(c, d).skip(2 + ec.len() as int) =~= encode_utf8(d));
    text::encoding_is_injective(a, c);
    text::encoding_is_injective(b, d);
}

/// Why bytes that are no request are refused: they are cut short, their parts are
/// no texts, or the texts are not credentials.
pub open spec fn request_refusal(bytes: Seq<u8>) -> Error {
    let size = wire::from_be16(bytes.subrange(0, 2)) as int;
    if bytes.len() < 2 || size > bytes.len() - 2 {
        Error::SystemCredentials
    } else if !valid_utf8(bytes.subrange(2, 2 + size)) || !valid_utf8(bytes.skip(2 + size)) {
        Error::SystemReplyText
    } else {
        Error::SystemCredentials
    }
}

/// Reads what was sent.
pub fn credentials(bytes: &[u8]) -> (r: Result<(&str, &str), Error>)
    ensures
        r is Ok <==> is_request(bytes@),
        r matches Ok((username, password)) ==> username_valid(username@) && password_valid(
            password@,
        ) && bytes@ == request_of(username@, password@),
        r matches Err(e) ==> e == request_refusal(bytes@),
{
    if bytes.len() < 2 {
        assert(!is_request(bytes@)) by {
            assert forall|u: Seq<char>, p: Seq<char>| bytes@ != #[trigger] request_of(u, p) by {
                assert(request_of(u, p).len() >= 2);
            }
        }
        return Err(Error::SystemCredentials);
    }
    let size: usize = wire::read_be16(bytes, 0) as usize;
    let ghost header = bytes@.subrange(0, 2);
    proof {
        wire::be16_is_unique(header);
        assert forall|u: Seq<char>, p: Seq<char>| username_valid(u) && bytes@ == #[trigger]
            request_of(u, p) implies size == encode_utf8(u).len() && bytes@.subrange(
            2,
            2 + size as int,
        ) == encode_utf8(u) && bytes@.skip(2 + size as int) == encode_utf8(p) && size
            <= bytes@.len() - 2 by {
            wire::be16_round_trip(encode_utf8(u).len());
            assert(header =~= wire::be16(encode_utf8(u).len()));
            assert(bytes@.subrange(2, 2 + size as int) =~= encode_utf8(u));
            assert(bytes@.skip(2 + size as int) =~= encode_utf8(p));
        }
    }
    if size > bytes.len() - 2 {
        return Err(Error::SystemCredentials);
    }
    let name = wire::slice(bytes, 2, 2 + size);
    let secret = wire::slice(bytes, 2 + size, bytes.len());
    assert(secret@ =~= bytes@.skip(2 + size as int));
    let username = match text::from_utf8(name) {
        Some(username) => username,
        None => {
            assert(!is_request(bytes@)) by {
                vstd::utf8::encode_utf8_valid_utf8(Seq::<char>::empty());
                assert forall|u: Seq<char>, p: Seq<char>| username_valid(u) implies bytes@
                    != #[trigger] request_of(u, p) by {
                    vstd::utf8::encode_utf8_valid_utf8(u);
                }
            }
            return Err(Error::SystemReplyText);
        },
    };
    let password = match text::from_utf8(secret) {
        Some(password) => password,
        None => {
            assert(!is_request(bytes@)) by {
                assert forall|u: Seq<char>, p: Seq<char>| username_valid(u) implies bytes@
                    != #[trigger] request_of(u, p) by {
                    vstd::utf8::encode_utf8_valid_utf8(p);
                }
            }
            return Err(Error::SystemReplyText);
        },
    };
    assert(bytes@ =~= request_of(username@, password@)) by {
        assert(header =~= wire::be16(size as nat));
        assert(bytes@ =~= header + (name@ + secret@));
    }
    match validate_credentials(username, password) {
        Ok(()) => Ok((username, password)),
        Err(e) => {
            assert(!is_request(bytes@)) by {
                assert forall|u: Seq<char>, p: Seq<char>|
                    username_valid(u) && password_valid(p) implies bytes@ != #[trigger] request_of(
                    u,
                    p,
                ) by {
                    if bytes@ == request_of(u, p) {
                        text::encoding_is_injective(u, username@);
                        text::encoding_is_injective(p, password@);
                    }
                }
            }
            Err(e)
        },
    }
}

// -------------------------------------------------------------------- replies

/// What a client checks before it reaches out.
pub fn check_login(username: &str, password: &str, fingerprint: &str) -> (r: Result<(), Error>)
    ensures
        r is Ok <==> username_valid(username@) && password_valid(password@) && fingerprint_form(
            fingerprint@,
        ),
        r matches Err(e) ==> e == if username_valid(username@) && password_valid(password@) {
            Error::Fingerprint
        } else {
            Error::SystemCredentials
        },
{
    match validate_credentials(username, password) {
        Ok(()) => {},
        Err(e) => return Err(e),
    }
    if protocol::parses_as_fingerprint(fingerprint) {
        Ok(())
    } else {
        Err(Error::Fingerprint)
    }
}

/// The protocol inside the connection must be the one that was asked for.
pub fn check_protocol(negotiated: Option<&[u8]>) -> (r: Result<(), Error>)
    ensures
        r is Ok <==> (negotiated matches Some(name) && name@ == encode_utf8(ALPN@)),
        r matches Err(e) ==> e == Error::SystemProtocol,
{
    match negotiated {
        Some(name) => if text::same_bytes(name, ALPN.as_bytes()) {
            Ok(())
        } else {
            Err(Error::SystemProtocol)
        },
        None => Err(Error::SystemProtocol),
    }
}

pub fn check_magic(magic: &[u8]) -> (r: Result<(), Error>)
    ensures
        r is Ok <==> magic@ == encode_utf8(MAGIC@),
        r matches Err(e) ==> e == Error::SystemProtocol,
{
    if text::same_bytes(magic, MAGIC.as_bytes()) {
        Ok(())
    } else {
        Err(Error::SystemProtocol)
    }
}

/// The answer that brings this credential.
pub open spec fn granted(token: Seq<char>, fingerprint: Seq<char>) -> Seq<u8> {
    seq![1u8] + (encode_utf8(token) + encode_utf8(fingerprint))
}

/// The answer is one to a login that succeeded, for a host of the expected identity.
pub open spec fn is_grant(reply: Seq<u8>, expected: Seq<char>, token: Seq<char>, fingerprint: Seq<
    char,
>) -> bool {
    &&& reply.len() == REPLY
    &&& reply == granted(token, fingerprint)
    &&& encode_utf8(token).len() == 64
    &&& text::all_hex(token)
    &&& same_certificate(fingerprint, expected)
}

fn same_identity(fingerprint: &str, expected: &str) -> (r: bool)
    ensures
        r == same_certificate(fingerprint@, expected@),
{
    match protocol::parse_fingerprint(fingerprint) {
        None => {
            assert(!same_certificate(fingerprint@, expected@));
            false
        },
        Some(a) => match protocol::parse_fingerprint(expected) {
            None => {
                assert(!same_certificate(fingerprint@, expected@));
                false
            },
            Some(b) => {
                let same = text::same_bytes(a.as_slice(), b.as_slice());
                proof {
                    let i = choose|i: int| fingerprint_at(fingerprint@, i);
                    let j = choose|j: int| fingerprint_at(expected@, j);
                    assert(fingerprint_at(fingerprint@, i) && fingerprint_at(expected@, j));
                    assert(a@ == fingerprint_bytes(fingerprint@, i));
                    assert(b@ == fingerprint_bytes(expected@, j));
                }
                same
            },
        },
    }
}

/// Why an answer that is no grant is refused.
pub open spec fn grant_refusal(reply: Seq<u8>) -> Error {
    let token = reply.subrange(1, 65);
    let fingerprint = reply.subrange(65, 129);
    if !(reply.len() == REPLY && reply[0] == 1) {
        Error::SystemLoginFailed
    } else if !valid_utf8(token) || !valid_utf8(fingerprint) {
        Error::SystemReplyText
    } else if !text::all_hex(decode_utf8(token)) {
        Error::SystemCredential
    } else if !fingerprint_form(decode_utf8(fingerprint)) {
        Error::Fingerprint
    } else {
        Error::SystemIdentity
    }
}

/// Reads the answer to a login. The identity that it names must be the one that the
/// connection was pinned to.
pub fn read_reply(reply: &[u8], expected: &str) -> (r: Result<Pairing, Error>)
    ensures
        r is Ok <==> exists|token: Seq<char>, fingerprint: Seq<char>| #[trigger]
            is_grant(reply@, expected@, token, fingerprint),
        r matches Ok(pairing) ==> is_grant(
            reply@,
            expected@,
            pairing.token@,
            pairing.fingerprint@,
        ),
        r matches Err(e) ==> e == grant_refusal(reply@),
{
    if !(reply.len() == REPLY && reply[0] == 1) {
        return Err(Error::SystemLoginFailed);
    }
    let first = wire::slice(reply, 1, 65);
    let second = wire::slice(reply, 65, 129);
    proof {
        assert forall|t: Seq<char>, f: Seq<char>| #[trigger]
            is_grant(reply@, expected@, t, f) implies first@ == encode_utf8(t) && second@
            == encode_utf8(f) by {
            assert(first@ =~= encode_utf8(t));
            assert(second@ =~= encode_utf8(f));
        }
    }
    let token = match text::from_utf8(first) {
        Some(token) => token,
        None => {
            proof {
                assert forall|t: Seq<char>, f: Seq<char>| !(#[trigger] is_grant(
                    reply@,
                    expected@,
                    t,
                    f,
                )) by {
                    vstd::utf8::encode_utf8_valid_utf8(t);
                }
            }
            return Err(Error::SystemReplyText);
        },
    };
    let fingerprint = match text::from_utf8(second) {
        Some(fingerprint) => fingerprint,
        None => {
            proof {
                assert forall|t: Seq<char>, f: Seq<char>| !(#[trigger] is_grant(
                    reply@,
                    expected@,
                    t,
                    f,
                )) by {
                    vstd::utf8::encode_utf8_valid_utf8(f);
                }
            }
            return Err(Error::SystemReplyText);
        },
    };
    proof {
        assert forall|t: Seq<char>, f: Seq<char>| #[trigger]
            is_grant(reply@, expected@, t, f) implies t == token@ && f == fingerprint@ by {
            text::encoding_is_injective(t, token@);
            text::encoding_is_injective(f, fingerprint@);
        }
        assert(reply@ =~= granted(token@, fingerprint@));
        vstd::utf8::encode_utf8_decode_utf8(token@);
        vstd::utf8::encode_utf8_decode_utf8(fingerprint@);
    }
    if !text::is_all_hex(token) {
        return Err(Error::SystemCredential);
    }
    if !protocol::parses_as_fingerprint(fingerprint) {
        assert(!same_certificate(fingerprint@, expected@));
        return Err(Error::Fingerprint);
    }
    if !same_identity(fingerprint, expected) {
        return Err(Error::SystemIdentity);
    }
    assert(is_grant(reply@, expected@, token@, fingerprint@));
    Ok(Pairing { token: token.to_string(), fingerprint: fingerprint.to_string() })
}

/// The answer to a login, whether it brought a credential or failed. A failure says
/// nothing of its reason.
pub fn reply(result: Result<Pairing, Error>) -> (r: Result<Vec<u8>, Error>)
    ensures
        match result {
            Ok(pairing) => {
                &&& r is Ok <==> pairing@.valid()
                &&& r matches Ok(bytes) ==> bytes@ == granted(pairing.token@, pairing.fingerprint@)
                &&& r matches Err(e) ==> e == if text::token_form(pairing.token@) {
                    Error::Fingerprint
                } else {
                    Error::SystemSessionCredential
                }
            },
            Err(_) => r matches Ok(bytes) && bytes@ == seq![0u8],
        },
{
    let mut out: Vec<u8> = Vec::new();
    match result {
        Ok(pairing) => {
            if !text::is_token_form(pairing.token.as_str()) {
                return Err(Error::SystemSessionCredential);
            }
            if !protocol::parses_as_fingerprint(pairing.fingerprint.as_str()) {
                return Err(Error::Fingerprint);
            }
            out.push(1);
            out.extend_from_slice(pairing.token.as_str().as_bytes());
            out.extend_from_slice(pairing.fingerprint.as_str().as_bytes());
            assert(out@ =~= granted(pairing.token@, pairing.fingerprint@));
        },
        Err(_) => {
            out.push(0);
            assert(out@ =~= seq![0u8]);
        },
    }
    Ok(out)
}

// ------------------------------------------------------------------- the host

/// A login begins, inside the connection. Returns the generation that it belongs
/// to. Where a security key is required, no account of the system is even asked.
pub fn begin(access: &ServerState) -> (r: Result<u64, Error>)
    ensures
        r is Ok <==> access.record.u2f is None,
        r matches Ok(generation) ==> generation == access.record.generation,
        r matches Err(e) ==> e == Error::SystemLoginFailed,
{
    if !access.system_login_allowed() {
        return Err(Error::SystemLoginFailed);
    }
    Ok(access.system_generation())
}

/// The account was asked. Where it agreed, a ticket is issued, unless the rules have
/// changed since the login began.
pub fn finish(access: &mut ServerState, generation: u64, authenticated: bool) -> (r: Result<
    Pairing,
    Error,
>)
    requires
        old(access).wf(),
    ensures
        final(access).wf(),
        !authenticated ==> r == Err::<Pairing, Error>(Error::SystemAuthentication)
            && *final(access) == *old(access),
        authenticated ==> exists|now: u128, token: Seq<char>|
            {
                &&& #[trigger] final(access).ticket_requested(old(access), generation, now, token)
                &&& text::token_form(token)
                &&& r is Ok <==> old(access).ticket_permitted(generation) && old(
                    access,
                ).ticket_room(generation, now)
                &&& r matches Ok(pairing) ==> pairing.token@ == token
            },
        r matches Ok(pairing) ==> pairing.fingerprint@ == old(access).legacy.fingerprint@,
        r is Ok ==> old(access).ticket_permitted(generation),
        authenticated ==> (r matches Err(e) ==> e == if old(access).ticket_permitted(generation) {
            Error::LoginUnavailable
        } else {
            Error::LoginFailed
        }),
        final(access).record == old(access).record,
{
    if !authenticated {
        return Err(Error::SystemAuthentication);
    }
    access.issue_system_session(generation)
}

// ----------------------------------------------------------------------- laws

/// The host reads what the client sent.
pub proof fn requests_are_read_back(username: Seq<char>, password: Seq<char>)
    requires
        username_valid(username),
        password_valid(password),
    ensures
        is_request(request_of(username, password)),
        request_of(username, password).len() <= MAX_FRAME,
{
}

/// The client takes the answer that a host with the pinned identity gives.
pub proof fn grants_are_accepted(token: Seq<char>, fingerprint: Seq<char>, expected: Seq<char>)
    requires
        text::token_form(token),
        text::token_form(fingerprint),
        same_certificate(fingerprint, expected),
    ensures
        is_grant(granted(token, fingerprint), expected, token, fingerprint),
{
    text::token_is_ascii(token);
    text::token_is_ascii(fingerprint);
}

} // verus!
