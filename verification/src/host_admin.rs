//! The control of a host by the user who runs it, and the code by which new devices
//! are paired. The control socket is private to that user, and nothing of it is
//! ever reachable over the network.
use crate::access::server::{not_from, not_named, Record, ServerState, FROM_PASSWORD};
use crate::access::{self, AccessStatus};
use crate::clock;
use crate::crypto;
use crate::error::Error;
use crate::pairing::{self, Keys};
use crate::text;
use crate::wire;
use vstd::prelude::*;
use vstd::utf8::encode_utf8;
use zeroize::Zeroize;

verus! {

/// The longest request, and the longest answer.
pub const MAX_REQUEST: usize = 8192;

pub const MAX_RESPONSE: usize = 65536;

/// What the first bytes of an enrolment connection say.
pub const LOGIN_MAGIC: &'static str = "TPAUTH01";

pub struct Options {
    /// The directory of the host's identity, where it is not the usual one.
    pub identity_dir: Option<String>,
    pub command: AdminCommand,
}

/// What the user asks for on the command line.
pub enum AdminCommand {
    Status,
    OpenPairing,
    ClosePairing,
    SetPassword { username: String },
    DisablePassword,
    RevokeDevice { id: String },
    RevokeAllDevices,
}

#[allow(inconsistent_fields)]
#[derive(Debug, PartialEq, Eq)]
pub enum Request {
    Status,
    OpenPairing,
    ClosePairing,
    SetPassword { username: String, password: String },
    DisablePassword,
    RevokeDevice { id: String },
    RevokeAllDevices,
}

/// `zeroize::Zeroize::zeroize` on a `String`: its memory is overwritten, and it is
/// left empty.
#[verifier::external_body]
pub(crate) fn wipe(secret: &mut String)
    ensures
        final(secret)@ == Seq::<char>::empty(),
{
    secret.zeroize()
}

impl Request {
    /// Overwrites the password, if there is one.
    pub fn clear_password(&mut self)
        ensures
            match *old(self) {
                Request::SetPassword { username, .. } => *final(self) matches
                    Request::SetPassword { username: name, password } && name == username
                    && password@.len() == 0,
                _ => *final(self) == *old(self),
            },
    {
        match self {
            Request::SetPassword { password, .. } => wipe(password),
            _ => {},
        }
    }
}

pub struct Device {
    pub id: String,
    pub name: String,
}

pub struct Response {
    pub error: Option<String>,
    pub listen: String,
    pub fingerprint: String,
    pub username: Option<String>,
    pub devices: Vec<Device>,
    pub pairing_open: bool,
    pub code: Option<String>,
}

impl Default for Response {
    fn default() -> (r: Self)
        ensures
            r.error is None,
            r.listen@.len() == 0,
            r.fingerprint@.len() == 0,
            r.username is None,
            r.devices@.len() == 0,
            !r.pairing_open,
            r.code is None,
    {
        Response {
            error: None,
            listen: String::new(),
            fingerprint: String::new(),
            username: None,
            devices: Vec::new(),
            pairing_open: false,
            code: None,
        }
    }
}

/// What is asked of the host for a command, and what is left of the second entry.
pub open spec fn requested(
    command: AdminCommand,
    password: String,
    before: Seq<char>,
    after: Seq<char>,
    r: Result<Request, Error>,
) -> bool {
    &&& r is Ok <==> (command is SetPassword ==> password@ == before)
    &&& r matches Err(e) ==> e == Error::PasswordsDiffer
    &&& r matches Ok(request) ==> match command {
        AdminCommand::Status => request is Status,
        AdminCommand::OpenPairing => request is OpenPairing,
        AdminCommand::ClosePairing => request is ClosePairing,
        AdminCommand::SetPassword { username } => request == (Request::SetPassword {
            username,
            password,
        }),
        AdminCommand::DisablePassword => request is DisablePassword,
        AdminCommand::RevokeDevice { id } => request == (Request::RevokeDevice { id }),
        AdminCommand::RevokeAllDevices => request is RevokeAllDevices,
    }
    &&& command is SetPassword ==> after.len() == 0
    &&& !(command is SetPassword) ==> after == before
}

/// The request for a command. A new password must have been entered twice, and what
/// was entered the second time is overwritten.
pub fn request_for(command: AdminCommand, password: String, confirmation: &mut String) -> (r:
    Result<Request, Error>)
    ensures
        requested(command, password, old(confirmation)@, final(confirmation)@, r),
{
    match command {
        AdminCommand::Status => Ok(Request::Status),
        AdminCommand::OpenPairing => Ok(Request::OpenPairing),
        AdminCommand::ClosePairing => Ok(Request::ClosePairing),
        AdminCommand::SetPassword { username } => {
            let matches = text::same(password.as_str(), confirmation.as_str());
            wipe(confirmation);
            if matches {
                Ok(Request::SetPassword { username, password })
            } else {
                Err(Error::PasswordsDiffer)
            }
        },
        AdminCommand::DisablePassword => Ok(Request::DisablePassword),
        AdminCommand::RevokeDevice { id } => Ok(Request::RevokeDevice { id }),
        AdminCommand::RevokeAllDevices => Ok(Request::RevokeAllDevices),
    }
}

// ---------------------------------------------------------------------- files

/// What the file system says of a path, and who asks.
#[derive(Clone, Copy, PartialEq, Eq, Structural, Debug)]
pub struct PathFacts {
    pub directory: bool,
    pub socket: bool,
    pub owner: u32,
    pub user: u32,
    pub mode: u32,
    pub inode: u64,
    pub device: u64,
}

impl PathFacts {
    pub open spec fn owned(self) -> bool {
        self.owner == self.user
    }

    pub open spec fn private(self) -> bool {
        self.mode & 0o077 == 0
    }
}

pub fn check_directory(facts: PathFacts) -> (r: Result<(), Error>)
    ensures
        r is Ok <==> facts.directory && facts.owned() && facts.private(),
        r matches Err(e) ==> e == Error::AdminDirectory,
{
    if facts.directory && facts.owner == facts.user && facts.mode & 0o077 == 0 {
        Ok(())
    } else {
        Err(Error::AdminDirectory)
    }
}

/// The socket that a client of the control is about to use.
pub fn check_socket(facts: PathFacts) -> (r: Result<(), Error>)
    ensures
        r is Ok <==> facts.socket && facts.owned() && facts.private(),
        r matches Err(e) ==> e == Error::AdminSocket,
{
    if facts.socket && facts.owner == facts.user && facts.mode & 0o077 == 0 {
        Ok(())
    } else {
        Err(Error::AdminSocket)
    }
}

/// The process at the other end must be the same user's.
pub fn check_peer(peer: Option<u32>, user: u32) -> (r: Result<(), Error>)
    ensures
        r is Ok <==> peer == Some(user),
        r matches Err(e) ==> e == Error::AdminPeer,
{
    match peer {
        Some(peer) => if peer == user {
            Ok(())
        } else {
            Err(Error::AdminPeer)
        },
        None => Err(Error::AdminPeer),
    }
}

/// How a connection to a socket that was found went.
#[derive(Clone, Copy, PartialEq, Eq, Structural, Debug)]
pub enum Probe {
    /// Nobody listens there.
    Refused,
    Failed,
    Connected,
}

/// Whether a socket may be removed.
pub open spec fn leftover(facts: PathFacts, probe: Probe, r: Result<(), Error>) -> bool {
    &&& r is Ok <==> facts.socket && facts.owned() && probe == Probe::Refused
    &&& r matches Err(e) ==> e == if !(facts.socket && facts.owned()) {
        Error::ExistingSocket
    } else if probe == Probe::Connected {
        Error::SocketOwned
    } else {
        Error::SocketUnchecked
    }
}

/// Whether a socket that was found is a leftover that may be removed.
pub fn check_leftover(facts: PathFacts, probe: Probe) -> (r: Result<(), Error>)
    ensures
        leftover(facts, probe, r),
{
    if !(facts.socket && facts.owner == facts.user) {
        return Err(Error::ExistingSocket);
    }
    match probe {
        Probe::Refused => Ok(()),
        Probe::Failed => Err(Error::SocketUnchecked),
        Probe::Connected => Err(Error::SocketOwned),
    }
}

/// The control's socket is removed at the end only if it is still the same one.
pub fn still_ours(found: Option<PathFacts>, inode: u64, device: u64) -> (r: bool)
    ensures
        r <==> (found matches Some(facts) && facts.inode == inode && facts.device == device),
{
    match found {
        Some(facts) => facts.inode == inode && facts.device == device,
        None => false,
    }
}

/// The address of the socket by the descriptor of its directory, which is short
/// whatever the directory is called.
pub fn socket_address(directory: u32) -> (r: String)
    ensures
        r@ == "/proc/self/fd/"@ + text::decimal(directory as nat) + "/admin.sock"@,
{
    let mut out = String::new();
    out.push_str("/proc/self/fd/");
    text::push_decimal(&mut out, directory as u64);
    out.push_str("/admin.sock");
    assert(out@ =~= "/proc/self/fd/"@ + text::decimal(directory as nat) + "/admin.sock"@);
    out
}

// --------------------------------------------------------------------- frames

/// A message is its length in four bytes and then its data.
pub open spec fn message_of(data: Seq<u8>) -> Seq<u8> {
    wire::be32(data.len()) + data
}

fn frame(data: &[u8]) -> (r: Vec<u8>)
    requires
        data@.len() <= MAX_RESPONSE,
    ensures
        r@ == message_of(data@),
{
    let mut out: Vec<u8> = Vec::new();
    wire::push_be32(&mut out, data.len() as u32);
    out.extend_from_slice(data);
    assert(out@ =~= message_of(data@));
    out
}

pub fn frame_request(data: &[u8]) -> (r: Result<Vec<u8>, Error>)
    ensures
        r is Ok <==> data@.len() <= MAX_REQUEST,
        r matches Ok(message) ==> message@ == message_of(data@),
        r matches Err(e) ==> e == Error::AdminRequestLarge,
{
    if data.len() > MAX_REQUEST {
        return Err(Error::AdminRequestLarge);
    }
    Ok(frame(data))
}

pub fn frame_response(data: &[u8]) -> (r: Result<Vec<u8>, Error>)
    ensures
        r is Ok <==> data@.len() <= MAX_RESPONSE,
        r matches Ok(message) ==> message@ == message_of(data@),
        r matches Err(e) ==> e == Error::AdminResponseLarge,
{
    if data.len() > MAX_RESPONSE {
        return Err(Error::AdminResponseLarge);
    }
    Ok(frame(data))
}

/// How many bytes of a request, or of a response, follow its length.
pub fn request_length(header: [u8; 4]) -> (r: Result<usize, Error>)
    ensures
        r is Ok <==> wire::from_be32(header@) <= MAX_REQUEST,
        r matches Ok(n) ==> n == wire::from_be32(header@),
        r matches Err(e) ==> e == Error::AdminRequestLarge,
{
    let n: u32 = wire::read_be32(header.as_slice(), 0);
    assert(header@.subrange(0, 4) =~= header@);
    if n as usize <= MAX_REQUEST {
        Ok(n as usize)
    } else {
        Err(Error::AdminRequestLarge)
    }
}

pub fn response_length(header: [u8; 4]) -> (r: Result<usize, Error>)
    ensures
        r is Ok <==> wire::from_be32(header@) <= MAX_RESPONSE,
        r matches Ok(n) ==> n == wire::from_be32(header@),
        r matches Err(e) ==> e == Error::AdminResponseLarge,
{
    let n: u32 = wire::read_be32(header.as_slice(), 0);
    assert(header@.subrange(0, 4) =~= header@);
    if n as usize <= MAX_RESPONSE {
        Ok(n as usize)
    } else {
        Err(Error::AdminResponseLarge)
    }
}

/// What is announced is what was sent.
pub proof fn messages_announce_their_length(data: Seq<u8>)
    requires
        data.len() <= MAX_RESPONSE,
    ensures
        wire::from_be32(message_of(data).take(4)) == data.len(),
        message_of(data).skip(4) == data,
{
    wire::be32_round_trip(data.len());
    assert(message_of(data).take(4) =~= wire::be32(data.len()));
    assert(message_of(data).skip(4) =~= data);
}

/// The answer, or the error that it reports.
pub fn outcome(response: Response) -> (r: Result<Response, String>)
    ensures
        r is Ok <==> response.error is None,
        r matches Ok(answer) ==> answer == response,
        r matches Err(message) ==> response.error == Some(message),
{
    if response.error.is_none() {
        return Ok(response);
    }
    match response.error {
        Some(message) => Err(message),
        None => Ok(Response::default()),
    }
}

// ----------------------------------------------------------------- the control

/// A code that is open. Times are nanoseconds on one clock.
pub struct Code {
    pub value: String,
    pub deadline: u128,
    pub attempts: u8,
    pub generation: u64,
}

/// One attempt at a code.
pub struct Attempt {
    pub value: String,
    pub deadline: u128,
    pub generation: u64,
}

pub struct Control {
    pub code: Option<Code>,
    /// Counts the codes that were opened, used or closed.
    pub epoch: u64,
}

/// Who an enrolment connection is for.
#[derive(Clone, Copy, PartialEq, Eq, Structural, Debug)]
pub enum Service {
    Login,
    Pairing,
    Nobody,
}

/// Who a connection with these first bytes is for.
pub open spec fn dispatched(magic: Seq<u8>, r: Service) -> bool {
    &&& r == if magic == encode_utf8(LOGIN_MAGIC@) {
        Service::Login
    } else if magic == encode_utf8(pairing::MAGIC@) {
        Service::Pairing
    } else {
        Service::Nobody
    }
}

pub fn dispatch(magic: &[u8]) -> (r: Service)
    ensures
        dispatched(magic@, r),
{
    if text::same_bytes(magic, LOGIN_MAGIC.as_bytes()) {
        Service::Login
    } else if text::same_bytes(magic, pairing::MAGIC.as_bytes()) {
        Service::Pairing
    } else {
        Service::Nobody
    }
}

/// What a request does to the accounts and devices, where it succeeds.
pub open spec fn carried_out(
    before: ServerState,
    request: Request,
    registration: Vec<u8>,
    after: ServerState,
) -> bool {
    match request {
        Request::SetPassword { username, .. } => {
            &&& after.record.account is Some
            &&& after.record.account->0.username@ == username@
            &&& after.record.account->0.registration == registration
            &&& after.record.devices@ == before.record.devices@.filter(not_from(FROM_PASSWORD@))
            &&& after == (ServerState {
                record: Record {
                    account: after.record.account,
                    devices: after.record.devices,
                    generation: (before.record.generation + 1) as u64,
                    ..before.record
                },
                ..before
            })
        },
        Request::DisablePassword => {
            &&& after.record.devices@ == before.record.devices@.filter(not_from(FROM_PASSWORD@))
            &&& after == (ServerState {
                record: Record {
                    account: None,
                    devices: after.record.devices,
                    generation: (before.record.generation + 1) as u64,
                    ..before.record
                },
                ..before
            })
        },
        Request::RevokeDevice { id } => {
            &&& after.record.devices@ == before.record.devices@.filter(not_named(id@))
            &&& after == (ServerState {
                record: Record { devices: after.record.devices, ..before.record },
                ..before
            })
        },
        Request::RevokeAllDevices => {
            &&& after.record.devices@.len() == 0
            &&& after == (ServerState {
                record: Record {
                    devices: after.record.devices,
                    generation: (before.record.generation + 1) as u64,
                    ..before.record
                },
                ..before
            })
        },
        _ => after == before,
    }
}

/// Whether a request succeeds.
pub open spec fn permitted(access: ServerState, request: Request) -> bool {
    match request {
        Request::SetPassword { username, password } => access::username_valid(username@)
            && access::password_valid(password@) && access.record.generation < u64::MAX,
        Request::DisablePassword | Request::RevokeAllDevices => access.record.generation
            < u64::MAX,
        Request::RevokeDevice { id } => exists|i: int|
            0 <= i < access.record.devices@.len() && (
            #[trigger] access.record.devices@[i]).summary.id@ == id@,
        _ => true,
    }
}

/// Why a request that does not succeed is refused.
pub open spec fn refusal(request: Request) -> Error {
    match request {
        Request::SetPassword { username, password } => if !access::username_valid(username@) {
            Error::Username
        } else if !access::password_valid(password@) {
            access::password_refusal(password@)
        } else {
            Error::GenerationExhausted
        },
        Request::RevokeDevice { .. } => Error::DeviceNotFound,
        _ => Error::GenerationExhausted,
    }
}

impl Control {
    pub open spec fn wf(&self) -> bool {
        self.code matches Some(code) ==> code.attempts <= pairing::ATTEMPTS && code.value@.len()
            == 6
    }

    /// The code that is there can be used.
    pub open spec fn usable(&self, now: u128) -> bool {
        self.code matches Some(code) && code.deadline > now && code.attempts > 0
            && code.generation == self.epoch
    }

    /// A new code with this number was opened at `now`.
    pub open spec fn opened(before: Control, number: nat, now: u128, after: Control) -> bool {
        &&& after.epoch == before.epoch.wrapping_add(1)
        &&& after.code matches Some(code) && {
            &&& code.value@ == text::six_digits(number)
            &&& code.deadline == clock::later(now, pairing::LIFETIME)
            &&& code.attempts == pairing::ATTEMPTS
            &&& code.generation == after.epoch
        }
    }

    pub fn new() -> (r: Self)
        ensures
            r.wf(),
            r.code is None,
            r.epoch == 0,
    {
        Control { code: None, epoch: 0 }
    }

    /// Opens pairing with the code for this number.
    pub fn open_pairing_with(&mut self, number: u32, now: u128) -> (r: String)
        requires
            old(self).wf(),
            number < 1_000_000,
        ensures
            final(self).wf(),
            Self::opened(*old(self), number as nat, now, *final(self)),
            r@ == pairing::printed(text::six_digits(number as nat)),
    {
        let value = pairing::code_from(number);
        let printable = pairing::printable(value.as_str());
        self.epoch = self.epoch.wrapping_add(1);
        self.code = Some(
            Code {
                value,
                deadline: clock::after(now, pairing::LIFETIME),
                attempts: pairing::ATTEMPTS,
                generation: self.epoch,
            },
        );
        printable
    }

    /// Opens pairing. Which code there is depends on chance; a code that was open
    /// is replaced. Returns the code as it is shown.
    pub fn open_pairing(&mut self, now: u128) -> (r: String)
        requires
            old(self).wf(),
        ensures
            final(self).wf(),
            exists|number: nat|
                number < 1_000_000 && #[trigger] Self::opened(*old(self), number, now, *final(self))
                    && r@ == pairing::printed(text::six_digits(number)),
    {
        let number: u32 = crypto::random_below(1_000_000);
        let shown = self.open_pairing_with(number, now);
        assert(Self::opened(*old(self), number as nat, now, *self));
        shown
    }

    /// Closes pairing, and invalidates attempts that are under way.
    pub fn close_pairing(&mut self)
        ensures
            final(self).wf(),
            final(self).code is None,
            final(self).epoch == old(self).epoch.wrapping_add(1),
    {
        self.code = None;
        self.epoch = self.epoch.wrapping_add(1);
    }

    pub fn pairing_open(&self, now: u128) -> (r: bool)
        ensures
            r == self.usable(now),
    {
        match &self.code {
            Some(code) => code.deadline > now && code.attempts > 0 && code.generation
                == self.epoch,
            None => false,
        }
    }

    /// Whether the enrolment port is open, and what is left of a code.
    pub open spec fn listens(self, password: bool, now: u128, after: Control, r: bool) -> bool {
        &&& after.epoch == self.epoch
        &&& after.code == if self.usable(now) {
            self.code
        } else {
            None
        }
        &&& r <==> password || self.usable(now)
    }

    /// Forgets a code that cannot be used. Returns whether the enrolment port should
    /// be open: for a code, or for logins with a password.
    pub fn listening(&mut self, password: bool, now: u128) -> (r: bool)
        requires
            old(self).wf(),
        ensures
            final(self).wf(),
            old(self).listens(password, now, *final(self), r),
    {
        if !self.pairing_open(now) {
            self.code = None;
        }
        self.code.is_some() || password
    }

    /// What a client that wants to pair meets.
    pub open spec fn tried(self, now: u128, after: Control, r: Result<Attempt, Error>) -> bool {
        &&& r is Ok <==> (self.code matches Some(code) && code.attempts > 0 && code.deadline
            > now)
        &&& r matches Err(e) ==> after == self && e == if self.code is None {
            Error::PairingClosed
        } else {
            Error::PairingOver
        }
        &&& r matches Ok(attempt) ==> {
            &&& attempt.value@ == self.code->0.value@
            &&& attempt.deadline == self.code->0.deadline
            &&& attempt.generation == self.code->0.generation
            &&& after.epoch == self.epoch
            &&& after.code == Some(
                Code {
                    attempts: (self.code->0.attempts - 1) as u8,
                    ..self.code->0
                },
            )
        }
    }

    /// A client wants to pair. Each such client costs one of the attempts, whatever
    /// comes of it.
    pub fn attempt(&mut self, now: u128) -> (r: Result<Attempt, Error>)
        requires
            old(self).wf(),
        ensures
            final(self).wf(),
            old(self).tried(now, *final(self), r),
    {
        match &mut self.code {
            None => Err(Error::PairingClosed),
            Some(code) => {
                if !(code.attempts > 0 && code.deadline > now) {
                    return Err(Error::PairingOver);
                }
                code.attempts = code.attempts - 1;
                Ok(
                    Attempt {
                        value: code.value.clone(),
                        deadline: code.deadline,
                        generation: code.generation,
                    },
                )
            },
        }
    }

    /// What the proof of a client makes of the code.
    pub open spec fn confirmed(
        self,
        attempt: Attempt,
        keys: Keys,
        evidence: Seq<u8>,
        now: u128,
        after: Control,
        r: Result<(), Error>,
    ) -> bool {
        &&& after.code == self.code
        &&& r is Ok <==> pairing::released(
            keys,
            evidence,
            now,
            attempt.deadline,
            Some(attempt.generation),
            self.epoch,
        )
        &&& after.epoch == if r is Ok {
            self.epoch.wrapping_add(1)
        } else {
            self.epoch
        }
        &&& r matches Err(e) ==> e == if evidence != keys.proof_of() {
            Error::PairingProof
        } else if now >= attempt.deadline {
            Error::PairingExpired
        } else {
            Error::PairingReplaced
        }
    }

    /// The client of an attempt has sent its proof. The code is used up before the
    /// credential is made.
    pub fn confirm(&mut self, attempt: &Attempt, keys: &Keys, evidence: &[u8], now: u128) -> (r:
        Result<(), Error>)
        requires
            old(self).wf(),
        ensures
            final(self).wf(),
            old(self).confirmed(*attempt, *keys, evidence@, now, *final(self), r),
    {
        pairing::consume(
            keys,
            evidence,
            now,
            attempt.deadline,
            Some(attempt.generation),
            &mut self.epoch,
        )
    }

    /// Carries out a request. `registration` is the server's half of a password
    /// registration, where the request is for one. Returns the code, where pairing
    /// was opened.
    pub fn apply(
        &mut self,
        access: &mut ServerState,
        request: &Request,
        registration: Vec<u8>,
        now: u128,
    ) -> (r: Result<Option<String>, Error>)
        requires
            old(self).wf(),
            old(access).wf(),
        ensures
            final(self).wf(),
            final(access).wf(),
            r is Ok <==> permitted(*old(access), *request),
            r is Ok ==> carried_out(*old(access), *request, registration, *final(access)),
            r matches Err(e) ==> e == refusal(*request) && *final(access) == *old(access)
                && *final(self) == *old(self),
            match *request {
                Request::OpenPairing => r matches Ok(Some(shown)) && exists|number: nat|
                    number < 1_000_000 && #[trigger] Self::opened(
                        *old(self),
                        number,
                        now,
                        *final(self),
                    ) && shown@ == pairing::printed(text::six_digits(number)),
                Request::ClosePairing => r == Ok::<Option<String>, Error>(None)
                    && final(self).code is None && final(self).epoch == old(
                    self,
                ).epoch.wrapping_add(1),
                _ => (r is Ok ==> r == Ok::<Option<String>, Error>(None)) && *final(self) == *old(
                    self,
                ),
            },
    {
        match request {
            Request::Status => Ok(None),
            Request::OpenPairing => Ok(Some(self.open_pairing(now))),
            Request::ClosePairing => {
                self.close_pairing();
                Ok(None)
            },
            Request::SetPassword { username, password } => {
                match access.set_password(username.as_str(), password.as_str(), registration) {
                    Ok(()) => Ok(None),
                    Err(e) => Err(e),
                }
            },
            Request::DisablePassword => match access.disable_password() {
                Ok(()) => Ok(None),
                Err(e) => Err(e),
            },
            Request::RevokeDevice { id } => match access.revoke_device(id.as_str()) {
                Ok(()) => Ok(None),
                Err(e) => Err(e),
            },
            Request::RevokeAllDevices => match access.revoke_all_devices() {
                Ok(()) => Ok(None),
                Err(e) => Err(e),
            },
        }
    }

    /// What the answer to a request says.
    pub open spec fn responded(
        &self,
        listen: Seq<char>,
        fingerprint: Seq<char>,
        status: AccessStatus,
        code: Option<String>,
        now: u128,
        r: Response,
    ) -> bool {
        &&& r.error is None
        &&& r.listen@ == listen
        &&& r.fingerprint@ == fingerprint
        &&& r.username == status.username
        &&& r.pairing_open == self.usable(now)
        &&& r.code == code
        &&& r.devices@.len() == status.devices@.len()
        &&& forall|i: int|
            0 <= i < r.devices@.len() ==> (#[trigger] r.devices@[i]).id@
                == status.devices@[i].id@ && r.devices@[i].name@ == status.devices@[i].name@
    }

    /// The answer to a request that was carried out.
    pub fn respond(
        &self,
        listen: &str,
        fingerprint: &str,
        status: &AccessStatus,
        code: Option<String>,
        now: u128,
    ) -> (r: Response)
        ensures
            self.responded(listen@, fingerprint@, *status, code, now, r),
    {
        let mut devices: Vec<Device> = Vec::new();
        let mut i: usize = 0;
        while i < status.devices.len()
            invariant
                i <= status.devices@.len(),
                devices@.len() == i,
                forall|j: int|
                    0 <= j < i ==> (#[trigger] devices@[j]).id@ == status.devices@[j].id@
                        && devices@[j].name@ == status.devices@[j].name@,
            decreases status.devices@.len() - i,
        {
            devices.push(
                Device { id: status.devices[i].id.clone(), name: status.devices[i].name.clone() },
            );
            i += 1;
        }
        Response {
            error: None,
            listen: listen.to_string(),
            fingerprint: fingerprint.to_string(),
            username: match &status.username {
                Some(name) => Some(name.clone()),
                None => None,
            },
            devices,
            pairing_open: self.pairing_open(now),
            code,
        }
    }
}

/// The answer to a request that was not carried out.
pub fn refuse(error: Error) -> (r: Response)
    ensures
        r.error matches Some(message) && message@ == error.text(),
        r.devices@.len() == 0,
        r.username is None,
        r.code is None,
        !r.pairing_open,
        r.listen@.len() == 0,
        r.fingerprint@.len() == 0,
{
    let mut response = Response::default();
    response.error = Some(error.message().to_string());
    response
}

// ----------------------------------------------------------------------- laws

/// An attempt that was begun before pairing was closed cannot be completed after.
pub proof fn closing_ends_attempts(
    control: Control,
    attempt: Attempt,
    keys: Keys,
    evidence: Seq<u8>,
    now: u128,
)
    requires
        attempt.generation == control.epoch,
    ensures
        !pairing::released(
            keys,
            evidence,
            now,
            attempt.deadline,
            Some(attempt.generation),
            control.epoch.wrapping_add(1),
        ),
{
}

/// A code that was used, closed or replaced is not open any more.
pub proof fn spent_codes_are_not_open(before: Control, after: Control, now: u128)
    requires
        before.usable(now),
        after.code == before.code,
        after.epoch == before.epoch.wrapping_add(1),
    ensures
        !after.usable(now),
{
}

/// What remains of a code's attempts before the first client and after each.
pub open spec fn counted_down(left: Seq<u8>) -> bool {
    &&& left.len() > 0
    &&& left[0] == pairing::ATTEMPTS
    &&& forall|i: int| 1 <= i < left.len() ==> one_less(left, i)
}

pub open spec fn one_less(left: Seq<u8>, i: int) -> bool {
    left[i - 1] > 0 && left[i] == left[i - 1] - 1
}

/// A code sees no more clients than it allows attempts.
pub proof fn a_code_allows_few_attempts(left: Seq<u8>)
    requires
        counted_down(left),
    ensures
        left.len() <= pairing::ATTEMPTS + 1,
        left.last() == pairing::ATTEMPTS + 1 - left.len(),
    decreases left.len(),
{
    if left.len() > 1 {
        let rest = left.drop_last();
        assert forall|i: int| 1 <= i < rest.len() implies one_less(rest, i) by {
            assert(one_less(left, i));
        }
        a_code_allows_few_attempts(rest);
        assert(one_less(left, left.len() - 1));
    }
}

} // verus!
