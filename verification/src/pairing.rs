//! Pairing by a code that is used once. A password-authenticated key exchange
//! proves that both ends know the code without sending it; keys for one direction
//! each then confirm the client and encrypt the credential. Every later connection
//! relies on the pinned certificate that the credential names.
use crate::clock;
use crate::crypto;
use crate::error::Error;
use crate::protocol::Pairing;
use crate::text;
use crate::wire;
use spake2::{Ed25519Group, Identity, Password, Spake2};
use vstd::prelude::*;
use vstd::utf8::encode_utf8;

verus! {

/// What a pairing connection begins with.
pub const MAGIC: &'static str = "TPPAIR01";

/// The names of the two ends in the key exchange.
pub const CLIENT: &'static str = "teleport/pair/v1/client";

pub const HOST: &'static str = "teleport/pair/v1/host";

/// The labels of the derived keys.
pub const CONFIRM: &'static str = "teleport/client-confirm/v1";

pub const CREDENTIAL: &'static str = "teleport/host-credential/v1";

/// How long one exchange may take, and how long a code is good for, in nanoseconds.
pub const TIMEOUT: u128 = 10_000_000_000;

pub const LIFETIME: u128 = 300_000_000_000;

/// How many exchanges a code allows.
pub const ATTEMPTS: u8 = 5;

/// The longest packet, and the longest messages of the exchange.
pub const MAX_PACKET: usize = 4096;

pub const MAX_MESSAGE: usize = 128;

pub const MAX_PROOF: usize = 32;

/// The length of a message of the key exchange, and what it begins with: the side
/// that it comes from.
pub const MESSAGE: usize = 33;

pub const CLIENT_SIDE: u8 = 0x41;

pub const HOST_SIDE: u8 = 0x42;

// ---------------------------------------------------------------------- codes

/// Characters that count in a code; the others only make it easier to read.
pub open spec fn counts() -> spec_fn(char) -> bool {
    |c: char| c != '-' && !text::ascii_white_space(c)
}

pub open spec fn normalized(code: Seq<char>) -> Seq<char> {
    code.filter(counts())
}

pub open spec fn all_digits(chars: Seq<char>) -> bool {
    forall|i: int| 0 <= i < chars.len() ==> text::digit(#[trigger] chars[i])
}

/// A code as the user may enter it.
pub open spec fn code_valid(code: Seq<char>) -> bool {
    encode_utf8(code).len() <= 32 && normalized(code).len() == 6 && all_digits(normalized(code))
}

pub fn normalize(code: &str) -> (r: Result<String, Error>)
    ensures
        r is Ok <==> code_valid(code@),
        r matches Ok(digits) ==> digits@ == normalized(code@),
        r matches Err(e) ==> e == Error::PairingCode,
{
    if text::byte_len(code) > 32 {
        return Err(Error::PairingCode);
    }
    let mut out = String::new();
    let mut digits = true;
    let mut count: u64 = 0;
    let n: usize = code.unicode_len();
    let mut i: usize = 0;
    proof {
        reveal(Seq::filter);
        assert(code@.take(0) =~= Seq::<char>::empty());
    }
    while i < n
        invariant
            n == code@.len(),
            i <= n,
            out@ == normalized(code@.take(i as int)),
            count == out@.len(),
            count <= i,
            digits == all_digits(out@),
        decreases n - i,
    {
        let c = code.get_char(i);
        proof {
            reveal(Seq::filter);
            assert(code@.take(i + 1).drop_last() =~= code@.take(i as int));
        }
        let ghost before = out@;
        if c != '-' && !text::is_ascii_white_space(c) {
            out.push(c);
            count += 1;
            if !text::is_digit(c) {
                digits = false;
            }
            assert(out@[before.len() as int] == c);
            assert(forall|j: int| 0 <= j < before.len() ==> #[trigger] before[j] == out@[j]);
        }
        i += 1;
    }
    assert(code@.take(n as int) =~= code@);
    if count == 6 && digits {
        Ok(out)
    } else {
        Err(Error::PairingCode)
    }
}

/// The code for a number below one million.
pub fn code_from(n: u32) -> (r: String)
    requires
        n < 1_000_000,
    ensures
        r@ == text::six_digits(n as nat),
{
    text::format_six_digits(n)
}

/// A new code. Which one depends on chance.
pub fn fresh_code() -> (r: String)
    ensures
        exists|n: nat| n < 1_000_000 && r@ == #[trigger] text::six_digits(n),
{
    let n: u32 = crypto::random_below(1_000_000);
    let code = code_from(n);
    assert(code@ == text::six_digits(n as nat));
    code
}

/// The code as it is shown: two groups of three.
pub open spec fn printed(code: Seq<char>) -> Seq<char> {
    code.take(3) + "-"@ + code.skip(3)
}

pub fn printable(code: &str) -> (r: String)
    requires
        code@.len() == 6,
    ensures
        r@ == printed(code@),
{
    let mut out = String::new();
    let head = code.substring_char(0, 3);
    let tail = code.substring_char(3, 6);
    out.push_str(head);
    out.push_str("-");
    out.push_str(tail);
    assert(head@ =~= code@.take(3));
    assert(tail@ =~= code@.skip(3));
    assert(out@ =~= printed(code@));
    out
}

proof fn six_is_filtered(a: Seq<char>, b: Seq<char>)
    requires
        all_digits(a),
    ensures
        normalized(a) == a,
        normalized(b + a) == normalized(b) + a,
    decreases a.len(),
{
    reveal(Seq::filter);
    if a.len() == 0 {
        assert(b + a =~= b);
        assert(normalized(b) + a =~= normalized(b));
        assert(a =~= Seq::<char>::empty());
    } else {
        let rest = a.drop_last();
        assert(all_digits(rest)) by {
            assert forall|i: int| 0 <= i < rest.len() implies text::digit(#[trigger] rest[i]) by {
                assert(rest[i] == a[i]);
            }
        }
        assert(text::digit(a[a.len() - 1]));
        assert(counts()(a.last()));
        six_is_filtered(rest, b);
        assert((b + a).drop_last() =~= b + rest);
        assert((b + a).last() == a.last());
        assert(rest.push(a.last()) =~= a);
        assert(normalized(b + a) =~= normalized(b) + a);
    }
}

/// The user can enter a code just as it was shown.
pub proof fn shown_codes_are_accepted(n: nat)
    requires
        n < 1_000_000,
    ensures
        code_valid(printed(text::six_digits(n))),
        normalized(printed(text::six_digits(n))) == text::six_digits(n),
{
    let code = text::six_digits(n);
    let shown = printed(code);
    reveal_strlit("-");
    assert forall|i: int| 0 <= i < code.len() implies text::digit(#[trigger] code[i]) by {}
    assert(all_digits(code.take(3)) && all_digits(code.skip(3)));
    let head = code.take(3) + "-"@;
    six_is_filtered(code.take(3), Seq::empty());
    six_is_filtered(code.skip(3), head);
    reveal(Seq::filter);
    assert(head.drop_last() =~= code.take(3));
    assert(head.last() == '-');
    assert(normalized(head) == code.take(3));
    assert(shown =~= head + code.skip(3));
    assert(normalized(shown) =~= code);
    assert(vstd::utf8::is_ascii_chars(shown)) by {
        assert forall|i: int| 0 <= i < shown.len() implies '\0' <= #[trigger] shown[i]
            <= '\u{7f}' by {
            if i < 3 {
                assert(shown[i] == code[i]);
            } else if i == 3 {
                assert(shown[i] == '-');
            } else {
                assert(shown[i] == code[i - 1]);
            }
        }
    }
    vstd::utf8::is_ascii_chars_encode_utf8(shown);
}

// ------------------------------------------------------------------ addresses

/// What the `url` crate reads from a URL: its host, and the port where one is
/// written, or nothing where the text is no URL.
pub uninterp spec fn url_parts_of(text: Seq<char>) -> Option<(Option<Seq<char>>, Option<u16>)>;

/// The text in an option.
pub open spec fn text_in(value: Option<String>) -> Option<Seq<char>> {
    match value {
        Some(text) => Some(text@),
        None => None,
    }
}

/// `url::Url::parse`, with `Url::host_str` and `Url::port` of what it gives: a
/// function of the text.
#[verifier::external_body]
pub(crate) fn url_parts(text: &str) -> (r: Option<(Option<String>, Option<u16>)>)
    ensures
        url_parts_of(text@) == match r {
            Some((host, port)) => Some((text_in(host), port)),
            None => None,
        },
{
    let url = url::Url::parse(text).ok()?;
    Some((url.host_str().map(|host| host.to_string()), url.port()))
}

/// An address that could pass for nothing but a host and a port.
pub open spec fn plain_address(address: Seq<char>) -> bool {
    &&& address.len() > 0
    &&& !address.contains('/')
    &&& !address.contains('@')
    &&& !address.contains('?')
    &&& !address.contains('#')
    &&& !text::any_white_space(address)
}

pub fn is_plain_address(address: &str) -> (r: bool)
    ensures
        r == plain_address(address@),
{
    address.unicode_len() > 0 && !text::contains(address, '/') && !text::contains(address, '@')
        && !text::contains(address, '?') && !text::contains(address, '#') && !text::has_white_space(
        address,
    )
}

/// There is a host and a port.
pub open spec fn complete(parts: Option<(Option<Seq<char>>, Option<u16>)>) -> bool {
    parts matches Some((host, port)) && host is Some && port is Some
}

/// The URL that an address stands for.
pub open spec fn address_url(address: Seq<char>) -> Seq<char> {
    "moqt://"@ + address
}

/// What was read from the URL of an address must be complete.
pub fn check_parts(parts: &Option<(Option<String>, Option<u16>)>, missing: Error) -> (r: Result<
    (),
    Error,
>)
    ensures
        r == match parts {
            None => Err::<(), Error>(Error::AddressSyntax),
            Some((host, port)) => if host is Some && port is Some {
                Ok(())
            } else {
                Err(missing)
            },
        },
{
    match parts {
        None => Err(Error::AddressSyntax),
        Some((host, port)) => if host.is_some() && port.is_some() {
            Ok(())
        } else {
            Err(missing)
        },
    }
}

/// The parts of an address.
pub(crate) fn address_parts(address: &str) -> (r: Option<(Option<String>, Option<u16>)>)
    ensures
        url_parts_of(address_url(address@)) == match r {
            Some((host, port)) => Some((text_in(host), port)),
            None => None,
        },
{
    let mut url = String::new();
    url.push_str("moqt://");
    url.push_str(address);
    assert(url@ =~= address_url(address@));
    url_parts(url.as_str())
}

pub fn validate_address(address: &str) -> (r: Result<(), Error>)
    ensures
        r is Ok <==> plain_address(address@) && complete(url_parts_of(address_url(address@))),
        r matches Err(e) ==> e == if !plain_address(address@) {
            Error::HostPortOnly
        } else if url_parts_of(address_url(address@)) is None {
            Error::AddressSyntax
        } else {
            Error::HostPortMissing
        },
{
    if !is_plain_address(address) {
        return Err(Error::HostPortOnly);
    }
    check_parts(&address_parts(address), Error::HostPortMissing)
}

// -------------------------------------------------------------------- packets

/// A packet is its length in two bytes and then its data.
pub open spec fn packet_of(data: Seq<u8>) -> Seq<u8> {
    wire::be16(data.len()) + data
}

pub fn frame_packet(data: &[u8]) -> (r: Result<Vec<u8>, Error>)
    ensures
        r is Ok <==> data@.len() <= MAX_PACKET,
        r matches Ok(packet) ==> packet@ == packet_of(data@),
        r matches Err(e) ==> e == Error::PairingTooLarge,
{
    if data.len() > MAX_PACKET {
        return Err(Error::PairingTooLarge);
    }
    let mut packet: Vec<u8> = Vec::new();
    wire::push_be16(&mut packet, data.len() as u16);
    packet.extend_from_slice(data);
    assert(packet@ =~= packet_of(data@));
    Ok(packet)
}

/// How many bytes of data follow the length of a packet.
pub fn packet_length(header: [u8; 2], maximum: usize) -> (r: Result<usize, Error>)
    ensures
        r is Ok <==> 1 <= wire::from_be16(header@) <= maximum,
        r matches Ok(n) ==> n == wire::from_be16(header@),
        r matches Err(e) ==> e == Error::PairingLength,
{
    let n: usize = wire::read_be16(header.as_slice(), 0) as usize;
    assert(header@.subrange(0, 2) =~= header@);
    if n > 0 && n <= maximum {
        Ok(n)
    } else {
        Err(Error::PairingLength)
    }
}

/// What is announced is what was sent.
pub proof fn packets_announce_their_length(data: Seq<u8>)
    requires
        data.len() <= MAX_PACKET,
    ensures
        wire::from_be16(packet_of(data).take(2)) == data.len(),
        packet_of(data).skip(2) == data,
{
    wire::be16_round_trip(data.len());
    assert(packet_of(data).take(2) =~= wire::be16(data.len()));
    assert(packet_of(data).skip(2) =~= data);
}

/// The first thing that a client sends.
pub fn opening(message: &[u8]) -> (r: Result<Vec<u8>, Error>)
    ensures
        r is Ok <==> message@.len() <= MAX_PACKET,
        r matches Ok(bytes) ==> bytes@ == encode_utf8(MAGIC@) + packet_of(message@),
        r matches Err(e) ==> e == Error::PairingTooLarge,
{
    match frame_packet(message) {
        Err(e) => Err(e),
        Ok(packet) => {
            let mut out: Vec<u8> = Vec::new();
            out.extend_from_slice(MAGIC.as_bytes());
            out.extend_from_slice(packet.as_slice());
            assert(out@ =~= encode_utf8(MAGIC@) + packet_of(message@));
            Ok(out)
        },
    }
}

/// What the host checks first.
pub fn check_magic(magic: &[u8]) -> (r: Result<(), Error>)
    ensures
        r is Ok <==> magic@ == encode_utf8(MAGIC@),
        r matches Err(e) ==> e == Error::PairingProtocol,
{
    if text::same_bytes(magic, MAGIC.as_bytes()) {
        Ok(())
    } else {
        Err(Error::PairingProtocol)
    }
}

// ----------------------------------------------------------------------- keys

/// What both ends have after the exchange.
pub struct Keys {
    pub confirmation: Vec<u8>,
    pub encryption: Vec<u8>,
    pub transcript: Vec<u8>,
}

/// All that was said.
pub open spec fn transcript_of(client: Seq<u8>, host: Seq<u8>) -> Seq<u8> {
    encode_utf8(MAGIC@) + client + host
}

/// A key that both ends derive from what they share and from all that was said.
pub open spec fn derived(shared: Seq<u8>, client: Seq<u8>, host: Seq<u8>, label: Seq<char>) -> Seq<
    u8,
> {
    crypto::hkdf_sha256_of(
        crypto::sha256_of(transcript_of(client, host)),
        shared,
        encode_utf8(label),
    )
}

impl Keys {
    pub open spec fn wf(&self) -> bool {
        self.encryption@.len() == 32
    }

    /// The keys for this exchange.
    pub open spec fn are(&self, shared: Seq<u8>, client: Seq<u8>, host: Seq<u8>) -> bool {
        &&& self.transcript@ == transcript_of(client, host)
        &&& self.confirmation@ == derived(shared, client, host, CONFIRM@)
        &&& self.encryption@ == derived(shared, client, host, CREDENTIAL@)
    }

    /// The proof that a client has the keys.
    pub open spec fn proof_of(&self) -> Seq<u8> {
        crypto::hmac_sha256_of(self.confirmation@, self.transcript@)
    }

    /// What a packet holds, where it was sealed with these keys.
    pub open spec fn opened(&self, packet: Seq<u8>) -> Option<Seq<u8>> {
        if packet.len() < 28 {
            None
        } else {
            crypto::aead_opened(
                self.encryption@,
                packet.take(12),
                self.transcript@,
                packet.skip(12),
            )
        }
    }

    pub fn new(shared: &[u8], client: &[u8], host: &[u8]) -> (r: Keys)
        ensures
            r.wf(),
            r.are(shared@, client@, host@),
    {
        let mut transcript: Vec<u8> = Vec::new();
        transcript.extend_from_slice(MAGIC.as_bytes());
        transcript.extend_from_slice(client);
        transcript.extend_from_slice(host);
        assert(transcript@ =~= transcript_of(client@, host@));
        let hash = crypto::sha256(transcript.as_slice());
        let confirmation = crypto::hkdf_sha256(hash.as_slice(), shared, CONFIRM.as_bytes()).unwrap();
        let encryption = crypto::hkdf_sha256(
            hash.as_slice(),
            shared,
            CREDENTIAL.as_bytes(),
        ).unwrap();
        Keys { confirmation, encryption, transcript }
    }

    /// The client's proof.
    pub fn prove(&self) -> (r: Vec<u8>)
        ensures
            r@ == self.proof_of(),
            r@.len() == 32,
    {
        crypto::hmac_sha256(self.confirmation.as_slice(), self.transcript.as_slice())
    }

    /// The host checks the client's proof.
    pub fn check(&self, evidence: &[u8]) -> (r: Result<(), Error>)
        ensures
            r is Ok <==> evidence@ == self.proof_of(),
            r matches Err(e) ==> e == Error::PairingProof,
    {
        if crypto::hmac_sha256_verify(
            self.confirmation.as_slice(),
            self.transcript.as_slice(),
            evidence,
        ) {
            Ok(())
        } else {
            Err(Error::PairingProof)
        }
    }

    /// Seals a credential under the given nonce.
    pub fn seal_with(&self, payload: &[u8], nonce: [u8; 12]) -> (r: Result<Vec<u8>, Error>)
        requires
            self.wf(),
        ensures
            r is Ok <==> payload@.len() <= crypto::MAX_SEALED,
            r matches Ok(packet) ==> {
                &&& packet@ == nonce@ + crypto::aead_sealed(
                    self.encryption@,
                    nonce@,
                    self.transcript@,
                    payload@,
                )
                &&& packet@.len() == payload@.len() + 28
                &&& self.opened(packet@) == Some(payload@)
            },
            r matches Err(e) ==> e == Error::PairingEncryption,
    {
        match crypto::aead_seal(
            self.encryption.as_slice(),
            nonce.as_slice(),
            self.transcript.as_slice(),
            payload,
        ) {
            None => Err(Error::PairingEncryption),
            Some(sealed) => {
                let mut packet: Vec<u8> = Vec::new();
                packet.extend_from_slice(nonce.as_slice());
                packet.extend_from_slice(sealed.as_slice());
                assert(packet@.take(12) =~= nonce@);
                assert(packet@.skip(12) =~= sealed@);
                assert(packet@ =~= nonce@ + sealed@);
                Ok(packet)
            },
        }
    }

    /// Seals a credential.
    pub fn seal(&self, payload: &[u8]) -> (r: Result<Vec<u8>, Error>)
        requires
            self.wf(),
        ensures
            r is Ok <==> payload@.len() <= crypto::MAX_SEALED,
            r matches Ok(packet) ==> {
                &&& exists|nonce: Seq<u8>|
                    nonce.len() == 12 && packet@ == nonce + #[trigger] crypto::aead_sealed(
                        self.encryption@,
                        nonce,
                        self.transcript@,
                        payload@,
                    )
                &&& packet@.len() == payload@.len() + 28
                &&& self.opened(packet@) == Some(payload@)
            },
            r matches Err(e) ==> e == Error::PairingEncryption,
    {
        let nonce = crypto::random_nonce();
        let r = self.seal_with(payload, nonce);
        assert(nonce@.len() == 12);
        r
    }

    /// Opens a credential.
    pub fn open(&self, packet: &[u8]) -> (r: Result<Vec<u8>, Error>)
        requires
            self.wf(),
        ensures
            r is Ok <==> self.opened(packet@) is Some,
            r matches Ok(payload) ==> self.opened(packet@) == Some(payload@),
            r matches Err(e) ==> e == if packet@.len() < 28 {
                Error::PairingResponse
            } else {
                Error::PairingAuthentication
            },
    {
        if packet.len() < 28 {
            return Err(Error::PairingResponse);
        }
        let nonce = wire::slice(packet, 0, 12);
        let sealed = wire::slice(packet, 12, packet.len());
        assert(packet@.subrange(0, 12) =~= packet@.take(12));
        assert(packet@.subrange(12, packet@.len() as int) =~= packet@.skip(12));
        match crypto::aead_open(
            self.encryption.as_slice(),
            nonce,
            self.transcript.as_slice(),
            sealed,
        ) {
            Some(payload) => Ok(payload),
            None => Err(Error::PairingAuthentication),
        }
    }
}

/// What a client accepts as a credential, once it was opened.
pub fn accept_credential(pairing: &Pairing) -> (r: Result<(), Error>)
    ensures
        r is Ok <==> pairing@.valid(),
        r == Err::<(), Error>(Error::PairingToken) <==> !text::token_form(pairing.token@),
        r matches Err(e) ==> e == Error::PairingToken || e == Error::Fingerprint,
{
    pairing.validate()
}

// ------------------------------------------------------------- the exchange

/// One end of a key exchange, between its message and that of the other end. The
/// state is the `spake2` crate's, and Verus sees nothing of it.
#[verifier::external_body]
pub struct Half {
    state: Spake2<Ed25519Group>,
}

/// The secret that a half gets from the message of the other end, if it accepts it.
pub uninterp spec fn finished(half: Half, message: Seq<u8>) -> Option<Seq<u8>>;

/// The code that a half was made with.
pub uninterp spec fn exchange_code(half: Half) -> Seq<u8>;

/// The names of client and host that a half was made with.
pub uninterp spec fn exchange_names(half: Half) -> (Seq<u8>, Seq<u8>);

/// The message that a half has for the other end.
pub uninterp spec fn sent(half: Half) -> Seq<u8>;

/// The two halves are a client and a host with one code and the same names.
pub open spec fn matched(a: Half, b: Half) -> bool {
    &&& exchange_code(a) == exchange_code(b)
    &&& exchange_names(a) == exchange_names(b)
    &&& sent(a).len() == MESSAGE
    &&& sent(b).len() == MESSAGE
    &&& sent(a)[0] == CLIENT_SIDE && sent(b)[0] == HOST_SIDE || sent(a)[0] == HOST_SIDE
        && sent(b)[0] == CLIENT_SIDE
}

/// `Spake2::<Ed25519Group>::start_a`: a client's half with this code and these names,
/// and its message, which is thirty-three bytes and begins with the side. What
/// follows the side depends on chance.
#[verifier::external_body]
fn start_client(code: &[u8], client: &[u8], host: &[u8]) -> (r: (Half, Vec<u8>))
    ensures
        exchange_code(r.0) == code@,
        exchange_names(r.0) == (client@, host@),
        sent(r.0) == r.1@,
        r.1@.len() == MESSAGE,
        r.1@[0] == CLIENT_SIDE,
{
    let (state, message) = Spake2::<Ed25519Group>::start_a(
        &Password::new(code),
        &Identity::new(client),
        &Identity::new(host),
    );
    (Half { state }, message)
}

/// `Spake2::<Ed25519Group>::start_b`: a host's half, and its message, as
/// [`start_client`] has them for a client.
#[verifier::external_body]
fn start_host(code: &[u8], client: &[u8], host: &[u8]) -> (r: (Half, Vec<u8>))
    ensures
        exchange_code(r.0) == code@,
        exchange_names(r.0) == (client@, host@),
        sent(r.0) == r.1@,
        r.1@.len() == MESSAGE,
        r.1@[0] == HOST_SIDE,
{
    let (state, message) = Spake2::<Ed25519Group>::start_b(
        &Password::new(code),
        &Identity::new(client),
        &Identity::new(host),
    );
    (Half { state }, message)
}

/// `Spake2::finish`: the secret of thirty-two bytes, a function of the half and the
/// message. It refuses a message that is not thirty-three bytes or not of the other
/// side. The message of a matching half is accepted, and that half gets the same
/// secret from the message of this one.
#[verifier::external_body]
fn finish(half: Half, message: &[u8]) -> (r: Option<Vec<u8>>)
    ensures
        r is Some <==> finished(half, message@) is Some,
        r matches Some(secret) ==> {
            &&& finished(half, message@) == Some(secret@)
            &&& secret@.len() == 32
            &&& message@.len() == MESSAGE
            &&& message@[0] == if sent(half)[0] == CLIENT_SIDE {
                HOST_SIDE
            } else {
                CLIENT_SIDE
            }
        },
        forall|other: Half| #[trigger]
            matched(half, other) && sent(other) == message@ ==> r is Some && finished(
                other,
                sent(half),
            ) == Some(r->0@),
{
    half.state.finish(message).ok()
}

/// The half is a client's, with this code.
pub open spec fn plays_client(half: Half, code: Seq<char>) -> bool {
    &&& exchange_code(half) == encode_utf8(code)
    &&& exchange_names(half) == (encode_utf8(CLIENT@), encode_utf8(HOST@))
    &&& sent(half).len() == MESSAGE
    &&& sent(half)[0] == CLIENT_SIDE
}

/// The half is a host's, with this code.
pub open spec fn plays_host(half: Half, code: Seq<char>) -> bool {
    &&& exchange_code(half) == encode_utf8(code)
    &&& exchange_names(half) == (encode_utf8(CLIENT@), encode_utf8(HOST@))
    &&& sent(half).len() == MESSAGE
    &&& sent(half)[0] == HOST_SIDE
}

/// A client begins an exchange with this code, and has a message for the host.
pub fn start_exchange(code: &str) -> (r: (Half, Vec<u8>))
    ensures
        plays_client(r.0, code@),
        r.1@ == sent(r.0),
{
    start_client(code.as_bytes(), CLIENT.as_bytes(), HOST.as_bytes())
}

/// A client has the host's message. `client` is the message that it sent itself.
pub fn finish_exchange(half: Half, client: &[u8], host: &[u8]) -> (r: Result<Keys, Error>)
    ensures
        r is Ok <==> finished(half, host@) is Some,
        r matches Ok(k) ==> k.wf() && k.are(finished(half, host@)->0, client@, host@),
        r matches Err(e) ==> e == Error::PairingExchange,
        r is Ok && sent(half)[0] == CLIENT_SIDE ==> host@.len() == MESSAGE && host@[0] == HOST_SIDE,
        forall|other: Half| #[trigger]
            matched(half, other) && sent(other) == host@ ==> r is Ok && finished(other, sent(half))
                == finished(half, host@),
{
    match finish(half, host) {
        Some(secret) => Ok(Keys::new(secret.as_slice(), client, host)),
        None => Err(Error::PairingExchange),
    }
}

/// These are a host's keys in an exchange with this code, where the client sent
/// `client` and the host `host`: they rest on the secret of a host's half, and a
/// client that has the code gets the same secret.
pub open spec fn answered(code: Seq<char>, client: Seq<u8>, host: Seq<u8>, keys: Keys) -> bool {
    exists|half: Half|
        {
            &&& #[trigger] plays_host(half, code)
            &&& sent(half) == host
            &&& finished(half, client) is Some
            &&& keys.are(finished(half, client)->0, client, host)
            &&& forall|other: Half| #[trigger]
                plays_client(other, code) && sent(other) == client ==> finished(other, host)
                    == finished(half, client)
        }
}

/// The host's half meets the client's message. `host` is the message that goes with
/// the half.
pub fn answer_with(half: Half, client: &[u8], host: &[u8]) -> (r: Result<Keys, Error>)
    ensures
        r is Ok <==> finished(half, client@) is Some,
        r matches Ok(k) ==> k.wf() && k.are(finished(half, client@)->0, client@, host@),
        r matches Err(e) ==> e == Error::PairingExchange,
        r is Ok && sent(half)[0] == HOST_SIDE ==> client@.len() == MESSAGE && client@[0]
            == CLIENT_SIDE,
        forall|other: Half| #[trigger]
            matched(half, other) && sent(other) == client@ ==> r is Ok && finished(
                other,
                sent(half),
            ) == finished(half, client@),
{
    match finish(half, client) {
        Some(secret) => Ok(Keys::new(secret.as_slice(), client, host)),
        None => Err(Error::PairingExchange),
    }
}

/// A host answers a client's message, with its own and the keys that follow. It
/// answers every client that has the code.
pub fn answer_exchange(code: &str, client: &[u8]) -> (r: Result<(Vec<u8>, Keys), Error>)
    ensures
        r matches Ok((host, k)) ==> k.wf() && answered(code@, client@, host@, k) && host@.len()
            == MESSAGE && host@[0] == HOST_SIDE,
        r is Ok ==> client@.len() == MESSAGE && client@[0] == CLIENT_SIDE,
        forall|other: Half| #[trigger]
            plays_client(other, code@) && sent(other) == client@ ==> r is Ok,
        r matches Err(e) ==> e == Error::PairingExchange,
{
    let (half, host) = start_host(code.as_bytes(), CLIENT.as_bytes(), HOST.as_bytes());
    let ghost own = half;
    let answer = answer_with(half, client, host.as_slice());
    proof {
        assert(plays_host(own, code@));
        assert forall|other: Half| #[trigger]
            plays_client(other, code@) && sent(other) == client@ implies answer is Ok && finished(
            other,
            host@,
        ) == finished(own, client@) by {
            assert(matched(own, other));
        }
    }
    match answer {
        Ok(keys) => Ok((host, keys)),
        Err(e) => Err(e),
    }
}

/// A client and a host with one code end with the same keys: the host takes the
/// client's proof, and the client opens what the host sealed.
pub proof fn one_code_makes_one_secret(
    code: Seq<char>,
    half: Half,
    client: Keys,
    host: Keys,
    message: Seq<u8>,
    packet: Seq<u8>,
)
    requires
        plays_client(half, code),
        answered(code, sent(half), message, host),
        client.are(finished(half, message)->0, sent(half), message),
    ensures
        finished(half, message) is Some,
        client.proof_of() == host.proof_of(),
        client.opened(packet) == host.opened(packet),
{
    let own = choose|own: Half|
        {
            &&& #[trigger] plays_host(own, code)
            &&& sent(own) == message
            &&& finished(own, sent(half)) is Some
            &&& host.are(finished(own, sent(half))->0, sent(half), message)
            &&& forall|other: Half| #[trigger]
                plays_client(other, code) && sent(other) == sent(half) ==> finished(other, message)
                    == finished(own, sent(half))
        };
    both_ends_agree(client, host, finished(own, sent(half))->0, sent(half), message, packet);
}

/// Two ends that have a secret in common and said the same agree on everything: the
/// host takes the client's proof, and the client opens what the host sealed.
pub proof fn both_ends_agree(
    a: Keys,
    b: Keys,
    shared: Seq<u8>,
    client: Seq<u8>,
    host: Seq<u8>,
    packet: Seq<u8>,
)
    requires
        a.are(shared, client, host),
        b.are(shared, client, host),
    ensures
        a.proof_of() == b.proof_of(),
        a.opened(packet) == b.opened(packet),
{
}

// ----------------------------------------------------------------- the host

/// The decision that releases a credential: the proof is right, the code has not
/// expired, and it was neither used nor closed nor replaced meanwhile, which the
/// epoch shows where there is one. The code is used up before anything is sent.
pub open spec fn released(
    keys: Keys,
    evidence: Seq<u8>,
    now: u128,
    deadline: u128,
    generation: Option<u64>,
    epoch: u64,
) -> bool {
    evidence == keys.proof_of() && now < deadline && (generation matches Some(g) ==> g == epoch)
}

/// What a client's proof makes of a code.
pub open spec fn consumed(
    keys: Keys,
    evidence: Seq<u8>,
    now: u128,
    deadline: u128,
    generation: Option<u64>,
    before: u64,
    after: u64,
    r: Result<(), Error>,
) -> bool {
    &&& r is Ok <==> released(keys, evidence, now, deadline, generation, before)
    &&& after == if r is Ok && generation is Some {
        before.wrapping_add(1)
    } else {
        before
    }
    &&& r matches Err(e) ==> e == if evidence != keys.proof_of() {
        Error::PairingProof
    } else if now >= deadline {
        Error::PairingExpired
    } else {
        Error::PairingReplaced
    }
}

pub fn consume(
    keys: &Keys,
    evidence: &[u8],
    now: u128,
    deadline: u128,
    generation: Option<u64>,
    epoch: &mut u64,
) -> (r: Result<(), Error>)
    ensures
        consumed(*keys, evidence@, now, deadline, generation, *old(epoch), *final(epoch), r),
{
    match keys.check(evidence) {
        Ok(()) => {},
        Err(e) => return Err(e),
    }
    if now >= deadline {
        return Err(Error::PairingExpired);
    }
    if let Some(generation) = generation {
        if *epoch != generation {
            return Err(Error::PairingReplaced);
        }
        *epoch = generation.wrapping_add(1);
    }
    Ok(())
}

/// A code that was used once is not good for another credential.
pub proof fn codes_are_used_once(
    keys: Keys,
    evidence: Seq<u8>,
    now: u128,
    deadline: u128,
    generation: u64,
    epoch: u64,
)
    requires
        released(keys, evidence, now, deadline, Some(generation), epoch),
    ensures
        !released(keys, evidence, now, deadline, Some(generation), epoch.wrapping_add(1)),
{
}

/// A code that is offered on its own. Times are nanoseconds on one clock.
pub struct Offer {
    pub attempts: u8,
    pub deadline: u128,
    pub used: bool,
}

#[derive(Clone, Copy, PartialEq, Eq, Structural, Debug)]
pub enum Listen {
    /// Wait for a client, until the deadline.
    Accept,
    Expired,
    /// There were as many attempts as the code allows.
    Exhausted,
    Used,
}

impl Offer {
    pub open spec fn wf(&self) -> bool {
        self.attempts <= ATTEMPTS
    }

    pub fn new(now: u128, lifetime: u128) -> (r: Self)
        ensures
            r.wf(),
            r.attempts == 0,
            !r.used,
            r.deadline == clock::later(now, lifetime),
    {
        Offer { attempts: 0, deadline: clock::after(now, lifetime), used: false }
    }

    /// Whether another client is listened to.
    pub open spec fn listens(&self, now: u128, r: Listen) -> bool {
        &&& r == if self.used {
            Listen::Used
        } else if self.attempts == ATTEMPTS {
            Listen::Exhausted
        } else if now >= self.deadline {
            Listen::Expired
        } else {
            Listen::Accept
        }
    }

    pub fn listen(&self, now: u128) -> (r: Listen)
        requires
            self.wf(),
        ensures
            self.listens(now, r),
    {
        if self.used {
            Listen::Used
        } else if self.attempts == ATTEMPTS {
            Listen::Exhausted
        } else if now >= self.deadline {
            Listen::Expired
        } else {
            Listen::Accept
        }
    }

    /// The offer once a client has come, and how long that client may take.
    pub open spec fn begun(self, now: u128, after: Offer, r: u128) -> bool {
        &&& after == (Offer { attempts: (self.attempts + 1) as u8, ..self })
        &&& r == if clock::later(now, TIMEOUT) < self.deadline {
            clock::later(now, TIMEOUT)
        } else {
            self.deadline
        }
    }

    /// A client has connected at `now`. Returns when its exchange must be done.
    pub fn begin(&mut self, now: u128) -> (r: u128)
        requires
            old(self).wf(),
            old(self).attempts < ATTEMPTS,
        ensures
            final(self).wf(),
            old(self).begun(now, *final(self), r),
    {
        self.attempts = self.attempts + 1;
        let limit: u128 = clock::after(now, TIMEOUT);
        if limit < self.deadline {
            limit
        } else {
            self.deadline
        }
    }

    /// The exchange is over.
    pub fn end(&mut self, used: bool)
        requires
            old(self).wf(),
        ensures
            final(self).wf(),
            *final(self) == (Offer { used: old(self).used || used, ..*old(self) }),
    {
        if used {
            self.used = true;
        }
    }
}

} // verus!
