//! Security keys: the rules that bind a credential to one host, and the checks
//! around the native library that talks to the key.
use crate::crypto;
use crate::error::Error;
use crate::text;
use vstd::prelude::*;
use vstd::utf8::encode_utf8;

verus! {

/// The COSE identifier of ECDSA on P-256 with SHA-256.
pub const ES256: i32 = -7;

/// The most devices that are listed.
pub const MAX_DEVICES: usize = 32;

/// The largest credential file, in bytes.
pub const MAX_CREDENTIAL_FILE: u64 = 32_768;

pub enum Command {
    /// List local FIDO devices.
    List,
    /// Read the capabilities of a key.
    Probe { device: Option<String> },
    /// Create an offline test credential in the file `output`.
    Enroll { fingerprint: String, output: String, device: Option<String> },
    /// Request and verify an offline assertion.
    Verify { credential: String, fingerprint: String, device: Option<String> },
}

/// A public credential, bound to the fingerprint of one host.
pub struct Credential {
    pub version: u32,
    pub fingerprint: String,
    pub rp: String,
    pub id: Vec<u8>,
    pub public_key: Vec<u8>,
    pub algorithm: i32,
    pub uv_required: bool,
}

/// ASCII letters in lower case.
pub open spec fn lower(c: char) -> char {
    if 'A' <= c <= 'Z' {
        (c as u32 + 32) as char
    } else {
        c
    }
}

pub open spec fn lowered(chars: Seq<char>) -> Seq<char> {
    chars.map_values(|c: char| lower(c))
}

fn to_lower(c: char) -> (r: char)
    ensures
        r == lower(c),
{
    if 'A' <= c && c <= 'Z' {
        (c as u8 + 32) as char
    } else {
        c
    }
}

/// The fingerprint in lower case, where it is one.
pub fn fingerprint(value: &str) -> (r: Result<String, Error>)
    ensures
        r is Ok <==> text::token_form(value@),
        r matches Ok(f) ==> f@ == lowered(value@),
        r matches Err(e) ==> e == Error::FingerprintForm,
{
    if !text::is_token_form(value) {
        return Err(Error::FingerprintForm);
    }
    let mut out = String::new();
    for c in it: value.chars()
        invariant
            it.seq() == value@,
            out@ =~= lowered(value@).take(it.index() as int),
            it.index() <= value@.len(),
    {
        out.push(to_lower(c));
    }
    assert(out@ =~= lowered(value@));
    Ok(out)
}

/// The relying party of a host. Two labels of thirty-two characters hold all of
/// the fingerprint within the limits of DNS; the name is no website's.
pub open spec fn relying_party_of(fingerprint: Seq<char>) -> Seq<char> {
    let value = lowered(fingerprint);
    "f-"@ + value.take(32) + "."@ + value.skip(32) + ".teleport.invalid"@
}

pub fn relying_party(value: &str) -> (r: Result<String, Error>)
    ensures
        r is Ok <==> text::token_form(value@),
        r matches Ok(rp) ==> rp@ == relying_party_of(value@),
        r matches Err(e) ==> e == Error::FingerprintForm,
{
    let value = match fingerprint(value) {
        Ok(value) => value,
        Err(e) => return Err(e),
    };
    let mut out = String::new();
    out.push_str("f-");
    out.push_str(value.as_str().substring_char(0, 32));
    out.push_str(".");
    out.push_str(value.as_str().substring_char(32, 64));
    out.push_str(".teleport.invalid");
    assert(out@ =~= relying_party_of(value@)) by {
        assert(value@.subrange(0, 32) =~= value@.take(32));
        assert(value@.subrange(32, 64) =~= value@.skip(32));
        lowering_twice(value@);
    }
    proof {
        lowering_twice(value@);
    }
    Ok(out)
}

/// Lowering a text twice changes no more than lowering it once.
proof fn lowering_twice(chars: Seq<char>)
    ensures
        lowered(lowered(chars)) == lowered(chars),
{
    assert forall|i: int| 0 <= i < chars.len() implies lower(lower(#[trigger] chars[i])) == lower(
        chars[i],
    ) by {
        let c = chars[i];
        if 'A' <= c <= 'Z' {
            assert(lower(c) as u32 == c as u32 + 32);
        }
    }
    assert(lowered(lowered(chars)) =~= lowered(chars));
}

/// The relying party does not depend on the case in which the fingerprint was
/// written.
pub proof fn relying_party_ignores_case(a: Seq<char>, b: Seq<char>)
    requires
        lowered(a) == lowered(b),
    ensures
        relying_party_of(a) == relying_party_of(b),
{
}

/// Different hosts have different relying parties.
pub proof fn relying_party_is_one_host(a: Seq<char>, b: Seq<char>)
    requires
        a.len() == 64,
        b.len() == 64,
        relying_party_of(a) == relying_party_of(b),
    ensures
        lowered(a) == lowered(b),
{
    let (x, y) = (lowered(a), lowered(b));
    let (p, q) = (relying_party_of(a), relying_party_of(b));
    reveal_strlit("f-");
    reveal_strlit(".");
    assert forall|i: int| 0 <= i < 64 implies x[i] == y[i] by {
        if i < 32 {
            assert(p[2 + i] == x[i] && q[2 + i] == y[i]);
        } else {
            assert(p[3 + i] == x[i] && q[3 + i] == y[i]);
        }
    }
    assert(x =~= y);
}

/// The JSON text of the tuple of a domain, a fingerprint, a relying party, a
/// purpose and a challenge.
pub uninterp spec fn challenge_json_of(
    domain: Seq<char>,
    fingerprint: Seq<char>,
    rp: Seq<char>,
    purpose: Seq<char>,
    challenge: Seq<u8>,
) -> Seq<u8>;

/// `serde_json::to_vec` on a tuple of four texts and thirty-two bytes. Such a
/// tuple has no part that can fail to serialise.
#[verifier::external_body]
fn challenge_json(
    domain: &str,
    fingerprint: &str,
    rp: &str,
    purpose: &str,
    challenge: &[u8; 32],
) -> (r: Option<Vec<u8>>)
    ensures
        r is Some,
        r->0@ == challenge_json_of(domain@, fingerprint@, rp@, purpose@, challenge@),
{
    serde_json::to_vec(&(domain, fingerprint, rp, purpose, challenge)).ok()
}

pub const CHALLENGE_DOMAIN: &'static str = "teleport/native-fido2/offline/v1";

/// What the key signs: a digest over the host, the relying party, the purpose and
/// a fresh challenge.
pub fn challenge_hash(fingerprint: &str, rp: &str, purpose: &str, challenge: [u8; 32]) -> (r: Result<
    Vec<u8>,
    Error,
>)
    ensures
        r is Ok,
        r->Ok_0@ == crypto::sha256_of(
            challenge_json_of(CHALLENGE_DOMAIN@, fingerprint@, rp@, purpose@, challenge@),
        ),
        r->Ok_0@.len() == 32,
{
    match challenge_json(CHALLENGE_DOMAIN, fingerprint, rp, purpose, &challenge) {
        Some(encoded) => Ok(crypto::sha256(encoded.as_slice())),
        None => Err(Error::ChallengeEncoding),
    }
}

impl Clone for Credential {
    fn clone(&self) -> (r: Self)
        ensures
            r.same(*self),
    {
        Credential {
            version: self.version,
            fingerprint: self.fingerprint.clone(),
            rp: self.rp.clone(),
            id: self.id.clone(),
            public_key: self.public_key.clone(),
            algorithm: self.algorithm,
            uv_required: self.uv_required,
        }
    }
}

impl Credential {
    /// The two say the same.
    pub open spec fn same(self, other: Credential) -> bool {
        &&& self.version == other.version
        &&& self.fingerprint@ == other.fingerprint@
        &&& self.rp@ == other.rp@
        &&& self.id@ == other.id@
        &&& self.public_key@ == other.public_key@
        &&& self.algorithm == other.algorithm
        &&& self.uv_required == other.uv_required
    }

    /// The version, algorithm and verification policy that are accepted.
    pub open spec fn policy(self) -> bool {
        self.version == 1 && self.algorithm == ES256 && self.uv_required
    }

    /// The credential was made for the host with this fingerprint.
    pub open spec fn bound_to(self, expected: Seq<char>) -> bool {
        self.fingerprint@ == lowered(expected) && self.rp@ == relying_party_of(expected)
    }

    pub open spec fn shape(self) -> bool {
        1 <= self.id@.len() <= 4096 && self.public_key@.len() == 64
    }
}

pub fn validate_credential(value: &Credential, expected: &str) -> (r: Result<(), Error>)
    ensures
        r is Ok <==> text::token_form(expected@) && value.policy() && value.bound_to(expected@)
            && value.shape(),
        r == Err::<(), Error>(Error::FingerprintForm) <==> !text::token_form(expected@),
        r == Err::<(), Error>(Error::CredentialPolicy) <==> text::token_form(expected@)
            && !value.policy(),
        r == Err::<(), Error>(Error::CredentialHost) <==> text::token_form(expected@)
            && value.policy() && !value.bound_to(expected@),
        r == Err::<(), Error>(Error::CredentialShape) <==> text::token_form(expected@)
            && value.policy() && value.bound_to(expected@) && !value.shape(),
{
    let wanted = match fingerprint(expected) {
        Ok(wanted) => wanted,
        Err(e) => return Err(e),
    };
    let rp = match relying_party(expected) {
        Ok(rp) => rp,
        Err(e) => return Err(e),
    };
    if !(value.version == 1 && value.algorithm == ES256 && value.uv_required) {
        return Err(Error::CredentialPolicy);
    }
    if !(text::same(value.fingerprint.as_str(), wanted.as_str()) && text::same(
        value.rp.as_str(),
        rp.as_str(),
    )) {
        return Err(Error::CredentialHost);
    }
    if !(value.id.len() > 0 && value.id.len() <= 4096 && value.public_key.len() == 64) {
        return Err(Error::CredentialShape);
    }
    Ok(())
}

/// A credential serves one host: the one whose fingerprint it carries.
pub proof fn credential_serves_one_host(value: Credential, a: Seq<char>, b: Seq<char>)
    requires
        value.bound_to(a),
        value.bound_to(b),
    ensures
        lowered(a) == lowered(b),
{
}

/// An authenticator may leave out the descriptor when the list of allowed
/// credentials had one entry. It may not put another in its place.
pub fn validate_single_allowed_id(returned: &[u8], expected: &[u8]) -> (r: Result<(), Error>)
    ensures
        r is Ok <==> returned@.len() == 0 || returned@ == expected@,
        r matches Err(e) ==> e == Error::CredentialSubstituted,
{
    if returned.len() == 0 || text::same_bytes(returned, expected) {
        Ok(())
    } else {
        Err(Error::CredentialSubstituted)
    }
}

/// The lengths of a digest, of authenticator data, of a signature and of a key.
pub open spec fn assertion_shape(hash: nat, authdata: nat, signature: nat, key: nat) -> bool {
    hash == 32 && 37 <= authdata <= 8192 && 1 <= signature <= 1024 && key == 64
}

/// What is checked before an assertion goes to the verifier.
pub fn check_assertion(hash: &[u8], authdata: &[u8], signature: &[u8], public_key: &[u8]) -> (r:
    Result<(), Error>)
    ensures
        r is Ok <==> assertion_shape(
            hash@.len(),
            authdata@.len(),
            signature@.len(),
            public_key@.len(),
        ),
        r matches Err(e) ==> e == Error::AssertionShape,
{
    if hash.len() == 32 && 37 <= authdata.len() && authdata.len() <= 8192 && signature.len() > 0
        && signature.len() <= 1024 && public_key.len() == 64 {
        Ok(())
    } else {
        Err(Error::AssertionShape)
    }
}

/// The outcome of a request for an assertion, before its parts are read.
pub fn check_assertion_reply(count: usize, returned: &[u8], expected: &[u8]) -> (r: Result<
    (),
    Error,
>)
    ensures
        r is Ok <==> count == 1 && (returned@.len() == 0 || returned@ == expected@),
        r == Err::<(), Error>(Error::AssertionCount) <==> count != 1,
        r == Err::<(), Error>(Error::CredentialSubstituted) <==> count == 1 && returned@.len() != 0
            && returned@ != expected@,
{
    if count != 1 {
        return Err(Error::AssertionCount);
    }
    validate_single_allowed_id(returned, expected)
}

/// A key as the native library lists it.
pub struct Device {
    pub path: String,
    pub manufacturer: String,
    pub product: String,
}

/// The first device with this path.
pub open spec fn listed_at(devices: Seq<Device>, path: Seq<char>, i: int) -> bool {
    &&& 0 <= i < devices.len()
    &&& devices[i].path@ == path
    &&& forall|j: int| 0 <= j < i ==> (#[trigger] devices[j]).path@ != path
}

/// Which of the keys is meant.
pub open spec fn selected(
    devices: Seq<Device>,
    selection: Option<&str>,
    r: Result<usize, Error>,
) -> bool {
    &&& r matches Ok(i) ==> match selection {
        Some(path) => listed_at(devices, path@, i as int),
        None => devices.len() == 1 && i == 0,
    }
    &&& r is Ok <==> match selection {
        Some(path) => exists|i: int|
            0 <= i < devices.len() && (#[trigger] devices[i]).path@ == path@,
        None => devices.len() == 1,
    }
    &&& r matches Err(e) ==> e == match selection {
        Some(_) => Error::KeyNotListed,
        None => if devices.len() == 0 {
            Error::NoKey
        } else {
            Error::SeveralKeys
        },
    }
}

/// Which of the listed devices to open: the one that was asked for, or the only
/// one there is.
pub fn select_device(devices: &Vec<Device>, selection: Option<&str>) -> (r: Result<usize, Error>)
    ensures
        selected(devices@, selection, r),
{
    match selection {
        Some(path) => {
            let mut i: usize = 0;
            while i < devices.len()
                invariant
                    i <= devices@.len(),
                    selection == Some(path),
                    forall|j: int| 0 <= j < i ==> (#[trigger] devices@[j]).path@ != path@,
                decreases devices@.len() - i,
            {
                if text::same(devices[i].path.as_str(), path) {
                    assert(devices@[i as int].path@ == path@);
                    return Ok(i);
                }
                i += 1;
            }
            Err(Error::KeyNotListed)
        },
        None => if devices.len() == 1 {
            Ok(0)
        } else if devices.len() == 0 {
            Err(Error::NoKey)
        } else {
            Err(Error::SeveralKeys)
        },
    }
}

pub fn check_device_count(count: usize) -> (r: Result<(), Error>)
    ensures
        r is Ok <==> count <= MAX_DEVICES,
        r matches Err(e) ==> e == Error::DeviceCount,
{
    if count <= MAX_DEVICES {
        Ok(())
    } else {
        Err(Error::DeviceCount)
    }
}

/// How the user proves presence to a key.
#[derive(Clone, Copy, PartialEq, Eq, Structural, Debug)]
pub enum Verification {
    Pin,
    BuiltIn,
}

/// How a key of this kind makes sure of its user.
pub open spec fn verifies(
    fido2: bool,
    has_pin: bool,
    has_uv: bool,
    r: Result<Verification, Error>,
) -> bool {
    &&& r == Ok::<Verification, Error>(Verification::Pin) <==> fido2 && has_pin
    &&& r == Ok::<Verification, Error>(Verification::BuiltIn) <==> fido2 && !has_pin && has_uv
    &&& r == Err::<Verification, Error>(Error::Fido2Required) <==> !fido2
    &&& r == Err::<Verification, Error>(Error::VerificationMissing) <==> fido2 && !has_pin
        && !has_uv
}

/// What to ask the user for, given the capabilities of the key.
pub fn verification(fido2: bool, has_pin: bool, has_uv: bool) -> (r: Result<Verification, Error>)
    ensures
        verifies(fido2, has_pin, has_uv, r),
{
    if !fido2 {
        Err(Error::Fido2Required)
    } else if has_pin {
        Ok(Verification::Pin)
    } else if has_uv {
        Ok(Verification::BuiltIn)
    } else {
        Err(Error::VerificationMissing)
    }
}

/// A PIN that a NUL can end: one to 255 bytes, none of them zero.
pub open spec fn pin_form(bytes: Seq<u8>) -> bool {
    1 <= bytes.len() <= 255 && !bytes.contains(0u8)
}

/// The PIN as the native library takes it, with a NUL behind it.
pub fn pin_bytes(pin: &str) -> (r: Result<Vec<u8>, Error>)
    ensures
        r is Ok <==> pin_form(encode_utf8(pin@)),
        r matches Ok(bytes) ==> bytes@ == encode_utf8(pin@).push(0u8),
        r matches Err(e) ==> e == Error::PinForm,
{
    let bytes = pin.as_bytes();
    if !(bytes.len() > 0 && bytes.len() <= 255) {
        return Err(Error::PinForm);
    }
    let mut out: Vec<u8> = Vec::new();
    let mut i: usize = 0;
    while i < bytes.len()
        invariant
            i <= bytes@.len(),
            out@ =~= bytes@.take(i as int),
            forall|j: int| 0 <= j < i ==> bytes@[j] != 0u8,
            bytes@ == encode_utf8(pin@),
        decreases bytes@.len() - i,
    {
        if bytes[i] == 0 {
            assert(bytes@[i as int] == 0u8);
            assert(bytes@.contains(0u8));
            return Err(Error::PinForm);
        }
        out.push(bytes[i]);
        i += 1;
    }
    out.push(0);
    assert(out@ =~= bytes@.push(0u8));
    Ok(out)
}

/// How a new credential vouches for itself.
#[derive(Clone, Copy, PartialEq, Eq, Structural, Debug)]
pub enum Attestation {
    /// No certificate came with it: the credential's own key signed.
    Itself,
    /// A certificate chain came with it.
    Chain,
}

/// A new credential must say that the user was present and was verified, which are
/// the bits one and four of its flags.
pub fn check_attestation(flags: u8, chain_length: usize) -> (r: Result<Attestation, Error>)
    ensures
        r is Ok <==> flags & 5 == 5,
        r matches Ok(kind) ==> (kind == Attestation::Itself <==> chain_length == 0),
        r matches Err(e) ==> e == Error::AttestationFlags,
{
    if flags & 5 != 5 {
        Err(Error::AttestationFlags)
    } else if chain_length == 0 {
        Ok(Attestation::Itself)
    } else {
        Ok(Attestation::Chain)
    }
}

/// The credential of a key that was enrolled at the host with this fingerprint.
pub open spec fn enrols(
    value: Seq<char>,
    id: Vec<u8>,
    public_key: Vec<u8>,
    r: Result<Credential, Error>,
) -> bool {
    &&& r is Ok <==> text::token_form(value) && value == lowered(value) && 1 <= id@.len() <= 4096
        && public_key@.len() == 64
    &&& r matches Ok(c) ==> {
        &&& c.version == 1
        &&& c.fingerprint@ == value
        &&& c.rp@ == relying_party_of(value)
        &&& c.id@ == id@
        &&& c.public_key@ == public_key@
        &&& c.algorithm == ES256
        &&& c.uv_required
    }
    &&& r == Err::<Credential, Error>(Error::FingerprintForm) <==> !text::token_form(value)
    &&& r == Err::<Credential, Error>(Error::CredentialHost) <==> text::token_form(value) && value
        != lowered(value)
    &&& r matches Err(e) ==> e == Error::FingerprintForm || e == Error::CredentialHost || e
        == Error::CredentialShape
}

/// The credential of a key for a host, which it must be fit for.
pub fn enrolled(value: &str, id: Vec<u8>, public_key: Vec<u8>) -> (r: Result<Credential, Error>)
    ensures
        enrols(value@, id, public_key, r),
{
    let rp = match relying_party(value) {
        Ok(rp) => rp,
        Err(e) => return Err(e),
    };
    let credential = Credential {
        version: 1,
        fingerprint: value.to_string(),
        rp,
        id,
        public_key,
        algorithm: ES256,
        uv_required: true,
    };
    match validate_credential(&credential, value) {
        Ok(()) => Ok(credential),
        Err(e) => Err(e),
    }
}

/// Whether data of this length, where there is any, may be copied out of the
/// native library.
pub fn check_blob(present: bool, length: usize, maximum: usize) -> (r: Result<(), Error>)
    ensures
        r is Ok <==> present && 0 < length <= maximum,
        r matches Err(e) ==> e == Error::NativeData,
{
    if present && length > 0 && length <= maximum {
        Ok(())
    } else {
        Err(Error::NativeData)
    }
}

/// A credential file, before and after it is read.
pub fn check_credential_file(regular: bool, announced: u64, read: u64) -> (r: Result<(), Error>)
    ensures
        r is Ok <==> regular && announced <= MAX_CREDENTIAL_FILE && read <= MAX_CREDENTIAL_FILE,
        r == Err::<(), Error>(Error::CredentialFile) <==> !(regular && announced
            <= MAX_CREDENTIAL_FILE),
        r == Err::<(), Error>(Error::CredentialFileGrew) <==> regular && announced
            <= MAX_CREDENTIAL_FILE && read > MAX_CREDENTIAL_FILE,
{
    if !(regular && announced <= MAX_CREDENTIAL_FILE) {
        return Err(Error::CredentialFile);
    }
    if read > MAX_CREDENTIAL_FILE {
        return Err(Error::CredentialFileGrew);
    }
    Ok(())
}

} // verus!
