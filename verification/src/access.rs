//! Password enrollment: the rules for names and passwords, the framing of the
//! login exchange, and the messages that are sealed with its session key. The
//! password proof itself is OPAQUE, whose messages are carried here as bytes.
//! Passwords are never stored; enrollment records and device credentials remain
//! secrets.
use crate::crypto;
use crate::error::Error;
use crate::protocol::{self, Pairing};
use crate::text;
use crate::wire;
use vstd::prelude::*;
use vstd::utf8::{encode_utf8, valid_utf8};

pub mod client;
pub mod login;
pub mod server;

verus! {

/// The first bytes on a login connection.
pub const MAGIC: &'static str = "TPAUTH01";

/// The first bytes of the packet that asks for a touch.
pub const TOUCH_MAGIC: &'static str = "TPU2F001";

/// How long a login may take, in seconds, and how long the password proof.
pub const LOGIN_TIMEOUT: u64 = 90;

pub const PROOF_TIMEOUT: u64 = 15;

/// The largest packet of the login exchange, in bytes.
pub const MAX_PACKET: usize = 4096;

/// Argon2id v19: 64 MiB, three passes, one lane. The magic bytes fix these
/// parameters; other ones need another protocol version.
pub const KSF_MEMORY_KIB: u32 = 65_536;

pub const KSF_PASSES: u32 = 3;

pub const KSF_LANES: u32 = 1;

/// The labels of the keys that a session key is expanded to.
pub const TOUCH_REQUEST: &'static str = "teleport/u2f/challenge/v1";

pub const TOUCH_REPLY: &'static str = "teleport/u2f/assertion/v1";

pub const DEVICE_CREDENTIAL: &'static str = "teleport/password/device-credential/v1";

/// What a client says of itself.
pub struct Hello {
    pub username: String,
    pub device_name: String,
    pub u2f: bool,
}

pub struct DeviceSummary {
    pub id: String,
    pub name: String,
    pub created_unix: u64,
    pub source: String,
}

impl DeviceSummary {
    /// The two say the same.
    pub open spec fn same(self, other: DeviceSummary) -> bool {
        &&& self.id@ == other.id@
        &&& self.name@ == other.name@
        &&& self.created_unix == other.created_unix
        &&& self.source@ == other.source@
    }
}

impl Clone for DeviceSummary {
    fn clone(&self) -> (r: Self)
        ensures
            r.same(*self),
    {
        DeviceSummary {
            id: self.id.clone(),
            name: self.name.clone(),
            created_unix: self.created_unix,
            source: self.source.clone(),
        }
    }
}

pub struct AccessStatus {
    pub username: Option<String>,
    pub devices: Vec<DeviceSummary>,
    pub u2f_required: bool,
}

pub open spec fn username_char(c: char) -> bool {
    text::alphanumeric(c) || c == '_' || c == '.' || c == '-'
}

/// One to sixty-four ASCII letters, digits, dots, underscores and hyphens.
pub open spec fn username_valid(s: Seq<char>) -> bool {
    1 <= s.len() <= 64 && forall|i: int| 0 <= i < s.len() ==> username_char(#[trigger] s[i])
}

pub fn validate_username(username: &str) -> (r: Result<(), Error>)
    ensures
        r is Ok <==> username_valid(username@),
        r matches Err(e) ==> e == Error::Username,
{
    let length: usize = username.unicode_len();
    if length == 0 || length > 64 {
        return Err(Error::Username);
    }
    for c in it: username.chars()
        invariant
            it.seq() == username@,
            forall|i: int| 0 <= i < it.index() ==> username_char(#[trigger] username@[i]),
    {
        if !(text::is_alphanumeric(c) || c == '_' || c == '.' || c == '-') {
            assert(!username_char(username@[it.index() as int]));
            return Err(Error::Username);
        }
    }
    Ok(())
}

pub open spec fn password_length_valid(s: Seq<char>) -> bool {
    encode_utf8(s).len() <= 1024 && s.len() >= 12
}

/// Nothing but ASCII digits and white space.
pub open spec fn numeric(s: Seq<char>) -> bool {
    forall|i: int| 0 <= i < s.len() ==> text::digit(#[trigger] s[i]) || text::white_space(s[i])
}

/// Some character is not white space, and some character is not the first one.
pub open spec fn varied(s: Seq<char>) -> bool {
    &&& exists|i: int| 0 <= i < s.len() && !text::white_space(#[trigger] s[i])
    &&& exists|i: int| 0 <= i < s.len() && #[trigger] s[i] != s[0]
}

pub open spec fn password_valid(s: Seq<char>) -> bool {
    password_length_valid(s) && !numeric(s) && varied(s)
}

/// Why a password that is not valid is refused.
pub open spec fn password_refusal(s: Seq<char>) -> Error {
    if !password_length_valid(s) {
        Error::PasswordLength
    } else if numeric(s) {
        Error::PasswordNumeric
    } else {
        Error::PasswordRepeating
    }
}

pub fn validate_password(password: &str) -> (r: Result<(), Error>)
    ensures
        r is Ok <==> password_valid(password@),
        r matches Err(e) ==> e == password_refusal(password@),
{
    if !(text::byte_len(password) <= 1024 && password.unicode_len() >= 12) {
        return Err(Error::PasswordLength);
    }
    let first: char = password.get_char(0);
    let mut only_numeric = true;
    let mut only_space = true;
    let mut only_first = true;
    for c in it: password.chars()
        invariant
            it.seq() == password@,
            password@.len() > 0,
            first == password@[0],
            only_numeric <==> (forall|i: int|
                0 <= i < it.index() ==> text::digit(#[trigger] password@[i]) || text::white_space(
                    password@[i],
                )),
            only_space <==> (forall|i: int|
                0 <= i < it.index() ==> text::white_space(#[trigger] password@[i])),
            only_first <==> (forall|i: int|
                0 <= i < it.index() ==> #[trigger] password@[i] == password@[0]),
    {
        if !(text::is_digit(c) || text::is_white_space(c)) {
            only_numeric = false;
        }
        if !text::is_white_space(c) {
            only_space = false;
        }
        if c != first {
            only_first = false;
        }
        assert(password@[it.index() as int] == c);
    }
    if only_numeric {
        return Err(Error::PasswordNumeric);
    }
    if only_space || only_first {
        return Err(Error::PasswordRepeating);
    }
    Ok(())
}

/// A name for a device: one to 128 bytes, no control characters.
pub open spec fn device_name_valid(s: Seq<char>) -> bool {
    s.len() > 0 && encode_utf8(s).len() <= 128 && !text::any_control(s)
}

pub(crate) fn is_device_name(name: &str) -> (r: bool)
    ensures
        r == device_name_valid(name@),
{
    name.unicode_len() > 0 && text::byte_len(name) <= 128 && !text::has_control(name)
}

impl Hello {
    pub open spec fn valid(self) -> bool {
        username_valid(self.username@) && device_name_valid(self.device_name@)
    }
}

pub fn validate_hello(hello: &Hello) -> (r: Result<(), Error>)
    ensures
        r is Ok <==> hello.valid(),
        r == Err::<(), Error>(Error::Username) <==> !username_valid(hello.username@),
        r == Err::<(), Error>(Error::DeviceName) <==> username_valid(hello.username@)
            && !device_name_valid(hello.device_name@),
{
    match validate_username(hello.username.as_str()) {
        Ok(()) => {},
        Err(e) => return Err(e),
    }
    if !is_device_name(hello.device_name.as_str()) {
        return Err(Error::DeviceName);
    }
    Ok(())
}

/// A packet is its length in two bytes and then its data, of which there is some.
pub open spec fn packet_of(data: Seq<u8>) -> Seq<u8> {
    wire::be16(data.len()) + data
}

pub fn frame_packet(data: &[u8]) -> (r: Result<Vec<u8>, Error>)
    ensures
        r is Ok <==> 1 <= data@.len() <= MAX_PACKET,
        r matches Ok(packet) ==> packet@ == packet_of(data@),
        r matches Err(e) ==> e == Error::PacketSize,
{
    if data.len() == 0 || data.len() > MAX_PACKET {
        return Err(Error::PacketSize);
    }
    let mut packet: Vec<u8> = Vec::new();
    wire::push_be16(&mut packet, data.len() as u16);
    packet.extend_from_slice(data);
    assert(packet@ =~= packet_of(data@));
    Ok(packet)
}

/// How many bytes of data follow the length of a packet.
pub fn packet_length(header: [u8; 2]) -> (r: Result<usize, Error>)
    ensures
        r is Ok <==> 1 <= wire::from_be16(header@) <= MAX_PACKET,
        r matches Ok(n) ==> n == wire::from_be16(header@),
        r matches Err(e) ==> e == Error::PacketSize,
{
    let n: usize = wire::read_be16(header.as_slice(), 0) as usize;
    assert(header@.subrange(0, 2) =~= header@);
    if n > 0 && n <= MAX_PACKET {
        Ok(n)
    } else {
        Err(Error::PacketSize)
    }
}

/// A packet that was framed announces the length of its data.
pub proof fn packets_announce_their_length(data: Seq<u8>)
    requires
        1 <= data.len() <= MAX_PACKET,
    ensures
        wire::from_be16(packet_of(data).take(2)) == data.len(),
        packet_of(data).skip(2) == data,
{
    assert(packet_of(data).take(2) =~= wire::be16(data.len()));
    wire::be16_round_trip(data.len());
    assert(packet_of(data).skip(2) =~= data);
}

/// The JSON text of the tuple of the magic bytes, the bytes of the hello and the
/// fingerprint.
pub uninterp spec fn context_json_of(
    magic: Seq<u8>,
    hello: Seq<u8>,
    fingerprint: Seq<char>,
) -> Seq<u8>;

/// `serde_json::to_vec` on two byte strings and a text. Such a tuple has no part
/// that can fail to serialise.
#[verifier::external_body]
fn context_json(magic: &[u8], hello: &[u8], fingerprint: &str) -> (r: Option<Vec<u8>>)
    ensures
        r is Some,
        r->0@ == context_json_of(magic@, hello@, fingerprint@),
{
    serde_json::to_vec(&(magic, hello, fingerprint)).ok()
}

/// What both sides bind the password proof to.
pub open spec fn context_of(hello: Seq<u8>, fingerprint: Seq<char>) -> Seq<u8> {
    context_json_of(encode_utf8(MAGIC@), hello, fingerprint)
}

pub fn login_context(hello: &[u8], fingerprint: &str) -> (r: Result<Vec<u8>, Error>)
    ensures
        r is Ok,
        r->Ok_0@ == context_of(hello@, fingerprint@),
{
    match context_json(MAGIC.as_bytes(), hello, fingerprint) {
        Some(context) => Ok(context),
        None => Err(Error::ContextEncoding),
    }
}

/// The key for messages under one label of a session.
pub open spec fn session_subkey(session: Seq<u8>, label: Seq<u8>) -> Seq<u8> {
    crypto::hkdf_sha256_of(encode_utf8(MAGIC@), session, label)
}

/// A sealed message: the nonce, then the ciphertext with its tag.
pub open spec fn sealed_packet(
    session: Seq<u8>,
    label: Seq<u8>,
    context: Seq<u8>,
    nonce: Seq<u8>,
    data: Seq<u8>,
) -> Seq<u8> {
    nonce + crypto::aead_sealed(session_subkey(session, label), nonce, context, data)
}

/// What a sealed message holds, where it was made for this session, label and
/// context. Twenty-eight bytes are the nonce and the tag.
pub open spec fn opened_packet(
    session: Seq<u8>,
    label: Seq<u8>,
    context: Seq<u8>,
    packet: Seq<u8>,
) -> Option<Seq<u8>> {
    if packet.len() < 28 {
        None
    } else {
        crypto::aead_opened(
            session_subkey(session, label),
            packet.take(12),
            context,
            packet.skip(12),
        )
    }
}

fn seal(session: &[u8], label: &[u8], context: &[u8], nonce: &[u8; 12], data: &[u8]) -> (r: Option<
    Vec<u8>,
>)
    ensures
        r is Some <==> data@.len() <= crypto::MAX_SEALED,
        r matches Some(packet) ==> {
            &&& packet@ == sealed_packet(session@, label@, context@, nonce@, data@)
            &&& packet@.len() == data@.len() + 28
            &&& opened_packet(session@, label@, context@, packet@) == Some(data@)
        },
{
    let key = match crypto::hkdf_sha256(MAGIC.as_bytes(), session, label) {
        Some(key) => key,
        None => return None,
    };
    match crypto::aead_seal(key.as_slice(), nonce.as_slice(), context, data) {
        Some(sealed) => {
            let mut packet: Vec<u8> = Vec::new();
            packet.extend_from_slice(nonce.as_slice());
            packet.extend_from_slice(sealed.as_slice());
            assert(packet@ =~= nonce@ + sealed@);
            assert(packet@.take(12) =~= nonce@);
            assert(packet@.skip(12) =~= sealed@);
            Some(packet)
        },
        None => None,
    }
}

fn open(session: &[u8], label: &[u8], context: &[u8], packet: &[u8]) -> (r: Option<Vec<u8>>)
    requires
        packet@.len() >= 28,
    ensures
        r is Some <==> opened_packet(session@, label@, context@, packet@) is Some,
        r matches Some(data) ==> opened_packet(session@, label@, context@, packet@) == Some(data@),
{
    let key = match crypto::hkdf_sha256(MAGIC.as_bytes(), session, label) {
        Some(key) => key,
        None => return None,
    };
    let nonce = wire::slice(packet, 0, 12);
    let sealed = wire::slice(packet, 12, packet.len());
    assert(nonce@ =~= packet@.take(12));
    assert(sealed@ =~= packet@.skip(12));
    crypto::aead_open(key.as_slice(), nonce, context, sealed)
}

/// Seals a security-key message under the given nonce.
pub fn seal_touch_with(
    session: &[u8],
    label: &[u8],
    context: &[u8],
    data: &[u8],
    nonce: [u8; 12],
) -> (r: Result<Vec<u8>, Error>)
    ensures
        r is Ok <==> data@.len() <= crypto::MAX_SEALED,
        r matches Ok(packet) ==> {
            &&& packet@ == sealed_packet(session@, label@, context@, nonce@, data@)
            &&& packet@.len() == data@.len() + 28
            &&& opened_packet(session@, label@, context@, packet@) == Some(data@)
        },
        r matches Err(e) ==> e == Error::TouchEncryption,
{
    match seal(session, label, context, &nonce, data) {
        Some(packet) => Ok(packet),
        None => Err(Error::TouchEncryption),
    }
}

/// Seals a security-key message. What was sealed opens again, in the same session,
/// under the same label and in the same context.
pub fn seal_touch(session: &[u8], label: &[u8], context: &[u8], data: &[u8]) -> (r: Result<
    Vec<u8>,
    Error,
>)
    ensures
        r is Ok <==> data@.len() <= crypto::MAX_SEALED,
        r matches Ok(packet) ==> {
            &&& exists|nonce: Seq<u8>|
                nonce.len() == 12 && packet@ == #[trigger] sealed_packet(
                    session@,
                    label@,
                    context@,
                    nonce,
                    data@,
                )
            &&& packet@.len() == data@.len() + 28
            &&& opened_packet(session@, label@, context@, packet@) == Some(data@)
        },
        r matches Err(e) ==> e == Error::TouchEncryption,
{
    seal_touch_with(session, label, context, data, crypto::random_nonce())
}

pub fn open_touch(session: &[u8], label: &[u8], context: &[u8], packet: &[u8]) -> (r: Result<
    Vec<u8>,
    Error,
>)
    ensures
        r is Ok <==> opened_packet(session@, label@, context@, packet@) is Some,
        r matches Ok(data) ==> opened_packet(session@, label@, context@, packet@) == Some(data@),
        r == Err::<Vec<u8>, Error>(Error::TouchMessage) <==> packet@.len() < 28,
        r matches Err(e) ==> e == Error::TouchMessage || e == Error::TouchAuthentication,
{
    if packet.len() < 28 {
        return Err(Error::TouchMessage);
    }
    match open(session, label, context, packet) {
        Some(data) => Ok(data),
        None => Err(Error::TouchAuthentication),
    }
}

/// Seals the pairing that a host issues, under the given nonce.
pub fn seal_credential_with(session: &[u8], context: &[u8], payload: &[u8], nonce: [u8; 12]) -> (r:
    Result<Vec<u8>, Error>)
    ensures
        r is Ok <==> payload@.len() <= crypto::MAX_SEALED,
        r matches Ok(packet) ==> {
            &&& packet@ == sealed_packet(
                session@,
                encode_utf8(DEVICE_CREDENTIAL@),
                context@,
                nonce@,
                payload@,
            )
            &&& packet@.len() == payload@.len() + 28
            &&& opened_packet(session@, encode_utf8(DEVICE_CREDENTIAL@), context@, packet@) == Some(
                payload@,
            )
        },
        r matches Err(e) ==> e == Error::CredentialEncryption,
{
    match seal(session, DEVICE_CREDENTIAL.as_bytes(), context, &nonce, payload) {
        Some(packet) => Ok(packet),
        None => Err(Error::CredentialEncryption),
    }
}

/// Seals the pairing that a host issues.
pub fn seal_credential(session: &[u8], context: &[u8], payload: &[u8]) -> (r: Result<
    Vec<u8>,
    Error,
>)
    ensures
        r is Ok <==> payload@.len() <= crypto::MAX_SEALED,
        r matches Ok(packet) ==> {
            &&& exists|nonce: Seq<u8>|
                nonce.len() == 12 && packet@ == #[trigger] sealed_packet(
                    session@,
                    encode_utf8(DEVICE_CREDENTIAL@),
                    context@,
                    nonce,
                    payload@,
                )
            &&& packet@.len() == payload@.len() + 28
            &&& opened_packet(session@, encode_utf8(DEVICE_CREDENTIAL@), context@, packet@) == Some(
                payload@,
            )
        },
        r matches Err(e) ==> e == Error::CredentialEncryption,
{
    seal_credential_with(session, context, payload, crypto::random_nonce())
}

/// Opens the packet with the pairing that a host issued.
pub fn open_credential(session: &[u8], context: &[u8], packet: &[u8]) -> (r: Result<Vec<u8>, Error>)
    ensures
        r is Ok <==> opened_packet(session@, encode_utf8(DEVICE_CREDENTIAL@), context@, packet@) is Some,
        r matches Ok(data) ==> opened_packet(
            session@,
            encode_utf8(DEVICE_CREDENTIAL@),
            context@,
            packet@,
        ) == Some(data@),
        r == Err::<Vec<u8>, Error>(Error::CredentialResponse) <==> packet@.len() < 28,
        r matches Err(e) ==> e == Error::CredentialResponse || e == Error::CredentialAuthentication,
{
    if packet.len() < 28 {
        return Err(Error::CredentialResponse);
    }
    match open(session, DEVICE_CREDENTIAL.as_bytes(), context, packet) {
        Some(data) => Ok(data),
        None => Err(Error::CredentialAuthentication),
    }
}

/// The pairing that came out of an opened credential must be one, and must be for
/// the host whose fingerprint the password proof was bound to.
pub fn accept_credential(pairing: &Pairing, fingerprint: &str) -> (r: Result<(), Error>)
    ensures
        r is Ok <==> pairing@.valid() && pairing.fingerprint@ == fingerprint@,
        r == Err::<(), Error>(Error::HostIdentity) <==> pairing@.valid() && pairing.fingerprint@
            != fingerprint@,
        r == Err::<(), Error>(Error::PairingToken) <==> !text::token_form(pairing.token@),
        r matches Err(e) ==> e == Error::HostIdentity || e == Error::PairingToken || e
            == Error::Fingerprint,
{
    match pairing.validate() {
        Ok(()) => {},
        Err(e) => return Err(e),
    }
    if !text::same(pairing.fingerprint.as_str(), fingerprint) {
        return Err(Error::HostIdentity);
    }
    Ok(())
}

/// Whether a password may be tried at all.
pub open spec fn login_password_valid(s: Seq<char>) -> bool {
    1 <= encode_utf8(s).len() <= 1024
}

/// What a client checks before it reaches out to a host.
pub fn check_login(hello: &Hello, password: &str) -> (r: Result<(), Error>)
    ensures
        r is Ok <==> hello.valid() && login_password_valid(password@),
        r matches Err(e) ==> e == if !username_valid(hello.username@) {
            Error::Username
        } else if !device_name_valid(hello.device_name@) {
            Error::DeviceName
        } else {
            Error::LoginPassword
        },
{
    match validate_hello(hello) {
        Ok(()) => {},
        Err(e) => return Err(e),
    }
    let length: usize = text::byte_len(password);
    if length == 0 || length > 1024 {
        return Err(Error::LoginPassword);
    }
    Ok(())
}

/// The fingerprint that a host sent in answer to the hello.
pub fn read_fingerprint(packet: &[u8]) -> (r: Result<String, Error>)
    ensures
        r is Ok <==> valid_utf8(packet@) && exists|s: Seq<char>|
            encode_utf8(s) == packet@ && #[trigger] protocol::fingerprint_form(s),
        r matches Ok(s) ==> encode_utf8(s@) == packet@ && protocol::fingerprint_form(s@),
        r == Err::<String, Error>(Error::FingerprintText) <==> !valid_utf8(packet@),
        r matches Err(e) ==> e == Error::FingerprintText || e == Error::Fingerprint,
{
    match text::from_utf8(packet) {
        Some(s) => {
            if protocol::parses_as_fingerprint(s) {
                Ok(s.to_string())
            } else {
                proof {
                    assert forall|t: Seq<char>| encode_utf8(t) == packet@ implies !(
                    #[trigger] protocol::fingerprint_form(t)) by {
                        text::encoding_is_injective(t, s@);
                    }
                }
                Err(Error::Fingerprint)
            }
        },
        None => Err(Error::FingerprintText),
    }
}

/// What a host answers to the password proof.
#[derive(Clone, Copy, PartialEq, Eq, Structural, Debug)]
pub enum ReplyKind {
    /// It asks for a touch; what it sealed begins behind the magic bytes.
    Touch,
    /// It sends the credential.
    Credential,
}

pub fn reply_kind(packet: &[u8]) -> (r: ReplyKind)
    ensures
        r == ReplyKind::Touch <==> wire::starts_with(packet@, encode_utf8(TOUCH_MAGIC@)),
{
    if wire::has_prefix(packet, TOUCH_MAGIC.as_bytes()) {
        ReplyKind::Touch
    } else {
        ReplyKind::Credential
    }
}

/// Opens the challenge in a packet that asks for a touch.
pub fn open_challenge(session: &[u8], context: &[u8], packet: &[u8]) -> (r: Result<Vec<u8>, Error>)
    requires
        packet@.len() >= encode_utf8(TOUCH_MAGIC@).len(),
    ensures
        r is Ok <==> opened_packet(
            session@,
            encode_utf8(TOUCH_REQUEST@),
            context@,
            packet@.skip(encode_utf8(TOUCH_MAGIC@).len() as int),
        ) is Some,
        r matches Ok(data) ==> opened_packet(
            session@,
            encode_utf8(TOUCH_REQUEST@),
            context@,
            packet@.skip(encode_utf8(TOUCH_MAGIC@).len() as int),
        ) == Some(data@),
        r matches Err(e) ==> e == if packet@.len() < encode_utf8(TOUCH_MAGIC@).len() + 28 {
            Error::TouchMessage
        } else {
            Error::TouchAuthentication
        },
{
    let rest = wire::slice(packet, TOUCH_MAGIC.as_bytes().len(), packet.len());
    assert(rest@ =~= packet@.skip(encode_utf8(TOUCH_MAGIC@).len() as int));
    open_touch(session, TOUCH_REQUEST.as_bytes(), context, rest)
}

} // verus!
