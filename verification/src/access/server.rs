//! What a host remembers of the people and devices that may enter: the password
//! record, the devices it gave credentials to, the tickets of system logins, and
//! the attempts that were made.
//!
//! Every method changes the state it is called on. Whoever keeps the state on disk
//! works on a copy, writes the record of the copy, and only then puts the copy in
//! its place: a record that could not be written never takes effect.
use crate::access::{self, AccessStatus, DeviceSummary};
use crate::clock;
use crate::crypto;
use crate::error::Error;
use crate::identity;
use crate::lists;
use crate::protocol::{fingerprint_form, Pairing};
use crate::security_key::Credential;
use crate::text;
use std::time::Instant;
use vstd::prelude::*;
use vstd::utf8::encode_utf8;

verus! {

/// The window in which attempts are counted, in seconds.
pub const ATTEMPT_WINDOW: u64 = 60;

/// The most attempts in the window: of all sources together, and of one source.
pub const MAX_ATTEMPTS: usize = 10;

pub const MAX_SOURCE_ATTEMPTS: usize = 5;

/// The most sources that are kept apart.
pub const MAX_SOURCES: usize = 256;

pub const MAX_DEVICES: usize = 128;

pub const MAX_TICKETS: usize = 16;

/// How many logins may be in progress.
pub const LOGIN_SLOTS: usize = 4;

/// How long an unclaimed ticket lasts, in nanoseconds.
pub const TICKET_LIFETIME: u128 = 60_000_000_000;

/// The largest record on disk, in bytes.
pub const MAX_DATABASE: u64 = 262_144;

/// Where a device credential comes from: a password login, or a one-time code.
pub const FROM_PASSWORD: &'static str = "password";

pub const FROM_PAIRING: &'static str = "pairing";

pub struct Device {
    pub summary: DeviceSummary,
    pub token_hash: Vec<u8>,
}

pub struct Account {
    pub username: String,
    /// The server's half of the password registration.
    pub registration: Vec<u8>,
}

/// What is kept on disk.
pub struct Record {
    pub version: u32,
    /// The server's password setup.
    pub setup: Vec<u8>,
    pub account: Option<Account>,
    pub devices: Vec<Device>,
    /// Moves with every change of policy, so that a login which began before the
    /// change cannot end after it.
    pub generation: u64,
    pub attempts: Vec<u64>,
    pub u2f: Option<Credential>,
    pub u2f_counter: u32,
}

/// The address of a peer.
#[derive(Clone, Copy, PartialEq, Eq, Structural, Debug)]
pub enum Address {
    V4(u32),
    V6(u128),
}

/// The recent attempts from one address.
pub struct Source {
    pub ip: Address,
    pub times: Vec<u64>,
}

/// A ticket of a system login. It is kept in memory only.
pub struct SystemSession {
    pub hash: Vec<u8>,
    pub generation: u64,
    pub deadline: u128,
    pub active: bool,
}

/// A session in progress. The ticket it used, if it used one, is destroyed when
/// the lease is given back.
pub struct SessionLease {
    pub hash: Vec<u8>,
}

pub struct ServerState {
    pub origin: Instant,
    pub legacy: Pairing,
    pub record: Record,
    pub sources: Vec<Source>,
    pub system_sessions: Vec<SystemSession>,
}

/// What is kept of a token.
pub open spec fn token_hash_of(token: Seq<char>) -> Seq<u8> {
    crypto::sha256_of(encode_utf8(token))
}

pub fn token_hash(token: &str) -> (r: Vec<u8>)
    ensures
        r@ == token_hash_of(token@),
        r@.len() == 32,
{
    crypto::sha256(token.as_bytes())
}

/// Some device has this token hash.
pub open spec fn some_device(devices: Seq<Device>, hash: Seq<u8>) -> bool {
    exists|i: int| 0 <= i < devices.len() && (#[trigger] devices[i]).token_hash@ == hash
}

/// The ticket belongs to this generation, and is in use or not yet expired.
pub open spec fn ticket_live(ticket: SystemSession, generation: u64, now: u128) -> bool {
    ticket.generation == generation && (ticket.active || ticket.deadline > now)
}

/// The ticket can begin a session: no session has, and it is neither revoked nor
/// expired.
pub open spec fn ticket_claimable(ticket: SystemSession, record: Record, now: u128) -> bool {
    record.u2f is None && ticket.generation == record.generation && !ticket.active
        && ticket.deadline > now
}

pub open spec fn no_two_tickets(tickets: Seq<SystemSession>) -> bool {
    forall|i: int, j: int|
        0 <= i < j < tickets.len() ==> (#[trigger] tickets[i]).hash@ != (
        #[trigger] tickets[j]).hash@
}

pub open spec fn no_two_sources(sources: Seq<Source>) -> bool {
    forall|i: int, j: int|
        0 <= i < j < sources.len() ==> (#[trigger] sources[i]).ip != (#[trigger] sources[j]).ip
}

/// The devices from anywhere but `source`.
pub open spec fn not_from(source: Seq<char>) -> spec_fn(Device) -> bool {
    |d: Device| d.summary.source@ != source
}

/// The devices with another identifier.
pub open spec fn not_named(id: Seq<char>) -> spec_fn(Device) -> bool {
    |d: Device| d.summary.id@ != id
}

/// The times within the window before `time`. A time ahead of the clock counts.
pub open spec fn recent(time: u64) -> spec_fn(u64) -> bool {
    |t: u64| (if time >= t { time - t } else { 0 }) < ATTEMPT_WINDOW
}

pub open spec fn live(generation: u64, now: u128) -> spec_fn(SystemSession) -> bool {
    |s: SystemSession| ticket_live(s, generation, now)
}

pub open spec fn other_ticket(hash: Seq<u8>) -> spec_fn(SystemSession) -> bool {
    |s: SystemSession| s.hash@ != hash
}

/// The sources that have attempts, each with those in the window.
pub open spec fn entries(sources: Seq<Source>) -> Seq<(Address, Seq<u64>)> {
    sources.map_values(|s: Source| (s.ip, s.times@))
}

pub open spec fn pruned(entries: Seq<(Address, Seq<u64>)>, time: u64) -> Seq<(Address, Seq<u64>)> {
    entries.map_values(|e: (Address, Seq<u64>)| (e.0, e.1.filter(recent(time)))).filter(
        |e: (Address, Seq<u64>)| e.1.len() > 0,
    )
}

/// The attempts from one address.
pub open spec fn attempts_from(entries: Seq<(Address, Seq<u64>)>, ip: Address) -> Seq<u64>
    decreases entries.len(),
{
    if entries.len() == 0 {
        Seq::empty()
    } else if entries.last().0 == ip {
        entries.last().1
    } else {
        attempts_from(entries.drop_last(), ip)
    }
}

pub open spec fn has_source(entries: Seq<(Address, Seq<u64>)>, ip: Address) -> bool {
    exists|i: int| 0 <= i < entries.len() && (#[trigger] entries[i]).0 == ip
}

/// One more attempt from an address.
pub open spec fn with_attempt(
    entries: Seq<(Address, Seq<u64>)>,
    ip: Address,
    time: u64,
) -> Seq<(Address, Seq<u64>)> {
    if has_source(entries, ip) {
        entries.map_values(
            |e: (Address, Seq<u64>)| if e.0 == ip { (e.0, e.1.push(time)) } else { e },
        )
    } else {
        entries.push((ip, seq![time]))
    }
}

impl Record {
    /// What may be loaded from disk.
    pub open spec fn bounded(self) -> bool {
        self.version == 1 && self.devices@.len() <= MAX_DEVICES && self.attempts@.len()
            <= MAX_ATTEMPTS
    }

    pub open spec fn hashes_valid(self) -> bool {
        forall|i: int| 0 <= i < self.devices@.len() ==> (#[trigger] self.devices@[i]).token_hash@.len() == 32
    }
}

/// A record for a host that has none, around a fresh password setup.
pub fn fresh_record(setup: Vec<u8>) -> (r: Record)
    ensures
        r.version == 1,
        r.setup == setup,
        r.account is None,
        r.devices@.len() == 0,
        r.generation == 0,
        r.attempts@.len() == 0,
        r.u2f is None,
        r.u2f_counter == 0,
        r.bounded(),
        r.hashes_valid(),
{
    Record {
        version: 1,
        setup,
        account: None,
        devices: Vec::new(),
        generation: 0,
        attempts: Vec::new(),
        u2f: None,
        u2f_counter: 0,
    }
}

impl ServerState {
    /// What every operation keeps.
    pub open spec fn wf(&self) -> bool {
        &&& self.legacy@.valid()
        &&& self.record.bounded()
        &&& self.record.hashes_valid()
        &&& no_two_sources(self.sources@)
        &&& no_two_tickets(self.system_sessions@)
        &&& self.system_sessions@.len() <= MAX_TICKETS
        &&& forall|i: int|
            0 <= i < self.system_sessions@.len() ==> (
            #[trigger] self.system_sessions@[i]).generation <= self.record.generation
    }

    /// The token opens a session: it is the host's own, that of a device, or that
    /// of a live ticket while no security key is required.
    pub open spec fn accepts(&self, token: Seq<char>, now: u128) -> bool {
        text::token_form(token) && (token == self.legacy.token@ || some_device(
            self.record.devices@,
            token_hash_of(token),
        ) || self.record.u2f is None && exists|i: int|
            0 <= i < self.system_sessions@.len() && (#[trigger] self.system_sessions@[i]).hash@
                == token_hash_of(token) && ticket_live(
                self.system_sessions@[i],
                self.record.generation,
                now,
            ))
    }

    /// The token is trusted for as long as it is not revoked: it is the host's own
    /// or that of a device.
    pub open spec fn saved(&self, token: Seq<char>) -> bool {
        token == self.legacy.token@ || some_device(self.record.devices@, token_hash_of(token))
    }

    /// What a stored record is opened as.
    pub open spec fn opened(
        record: Record,
        legacy: Pairing,
        setup_valid: bool,
        registration_valid: bool,
        key_valid: bool,
        r: Result<ServerState, Error>,
    ) -> bool {
        &&& r is Ok <==> {
            &&& legacy@.valid()
            &&& record.bounded()
            &&& setup_valid
            &&& record.account is Some ==> access::username_valid(record.account->0.username@)
                && registration_valid
            &&& record.hashes_valid()
            &&& record.u2f is Some ==> key_valid
        }
        &&& r matches Ok(state) ==> {
            &&& state.wf()
            &&& state.record == record
            &&& state.legacy == legacy
            &&& state.sources@.len() == 0
            &&& state.system_sessions@.len() == 0
        }
        &&& r matches Err(e) ==> e == if !text::token_form(legacy.token@) {
            Error::PairingToken
        } else if !fingerprint_form(legacy.fingerprint@) {
            Error::Fingerprint
        } else if !record.bounded() {
            Error::AccessDatabase
        } else if !setup_valid {
            Error::StoredSetup
        } else if record.account is Some && !access::username_valid(
            record.account->0.username@,
        ) {
            Error::Username
        } else if record.account is Some && !registration_valid {
            Error::StoredSetup
        } else if !record.hashes_valid() {
            Error::StoredCredential
        } else {
            Error::CredentialRefused
        }
    }

    /// The state of a host with this record. `setup_valid` and
    /// `registration_valid` say whether the password setup and the registration,
    /// where there is one, could be read; `key_valid` whether the security key,
    /// where there is one, is fit for this host.
    pub fn open(
        record: Record,
        legacy: Pairing,
        setup_valid: bool,
        registration_valid: bool,
        key_valid: bool,
    ) -> (r: Result<ServerState, Error>)
        ensures
            Self::opened(record, legacy, setup_valid, registration_valid, key_valid, r),
    {
        match legacy.validate() {
            Ok(()) => {},
            Err(e) => return Err(e),
        }
        if !(record.version == 1 && record.devices.len() <= MAX_DEVICES && record.attempts.len()
            <= MAX_ATTEMPTS) {
            return Err(Error::AccessDatabase);
        }
        if !setup_valid {
            return Err(Error::StoredSetup);
        }
        if let Some(account) = &record.account {
            match access::validate_username(account.username.as_str()) {
                Ok(()) => {},
                Err(e) => return Err(e),
            }
            if !registration_valid {
                return Err(Error::StoredSetup);
            }
        }
        let mut i: usize = 0;
        while i < record.devices.len()
            invariant
                i <= record.devices@.len(),
                forall|j: int|
                    0 <= j < i ==> (#[trigger] record.devices@[j]).token_hash@.len() == 32,
                legacy@.valid(),
                record.bounded(),
                setup_valid,
                record.account is Some ==> access::username_valid(record.account->0.username@)
                    && registration_valid,
            decreases record.devices@.len() - i,
        {
            if record.devices[i].token_hash.len() != 32 {
                assert(record.devices@[i as int].token_hash@.len() != 32);
                return Err(Error::StoredCredential);
            }
            i += 1;
        }
        if record.u2f.is_some() && !key_valid {
            return Err(Error::CredentialRefused);
        }
        Ok(
            ServerState {
                origin: clock::now(),
                legacy,
                record,
                sources: Vec::new(),
                system_sessions: Vec::new(),
            },
        )
    }

    /// What the user is told of the accounts and devices.
    pub open spec fn described(&self, r: AccessStatus) -> bool {
        &&& r.username is Some <==> self.record.account is Some
        &&& r.username matches Some(name) ==> name@ == self.record.account->0.username@
        &&& r.u2f_required <==> self.record.u2f is Some
        &&& r.devices@.len() == self.record.devices@.len()
        &&& forall|i: int|
            0 <= i < r.devices@.len() ==> (#[trigger] r.devices@[i]).same(
                self.record.devices@[i].summary,
            )
    }

    /// What the host shows of itself.
    pub fn status(&self) -> (r: AccessStatus)
        ensures
            self.described(r),
    {
        let mut devices: Vec<DeviceSummary> = Vec::new();
        let mut i: usize = 0;
        while i < self.record.devices.len()
            invariant
                i <= self.record.devices@.len(),
                devices@.len() == i,
                forall|j: int|
                    0 <= j < i ==> (#[trigger] devices@[j]).same(self.record.devices@[j].summary),
            decreases self.record.devices@.len() - i,
        {
            devices.push(self.record.devices[i].summary.clone());
            i += 1;
        }
        AccessStatus {
            username: match &self.record.account {
                Some(account) => Some(account.username.clone()),
                None => None,
            },
            devices,
            u2f_required: self.record.u2f.is_some(),
        }
    }

    /// A new generation, unless they have run out.
    fn advance(&mut self) -> (r: Result<(), Error>)
        requires
            old(self).wf(),
        ensures
            r is Ok <==> old(self).record.generation < u64::MAX,
            r matches Err(e) ==> e == Error::GenerationExhausted && *final(self) == *old(self),
            r is Ok ==> *final(self) == (ServerState {
                record: Record {
                    generation: (old(self).record.generation + 1) as u64,
                    ..old(self).record
                },
                ..*old(self)
            }),
            final(self).wf(),
    {
        match self.record.generation.checked_add(1) {
            Some(next) => {
                self.record.generation = next;
                Ok(())
            },
            None => Err(Error::GenerationExhausted),
        }
    }

    /// The record once this key is required.
    pub open spec fn key_required(
        self,
        credential: Credential,
        acceptable: bool,
        after: ServerState,
        r: Result<(), Error>,
    ) -> bool {
        &&& r is Ok <==> acceptable && self.record.account is Some
            && self.record.generation < u64::MAX
        &&& r is Ok ==> after == (ServerState {
            record: Record {
                u2f: Some(credential),
                u2f_counter: 0,
                generation: (self.record.generation + 1) as u64,
                ..self.record
            },
            ..self
        })
        &&& r matches Err(e) ==> after == self && e == if !acceptable {
            Error::CredentialRefused
        } else if self.record.account is None {
            Error::PasswordFirst
        } else {
            Error::GenerationExhausted
        }
    }

    /// From now on new password logins need a touch of this security key. Devices
    /// that are trusted already stay so. `acceptable` is the verdict on the
    /// credential. For local administration by the same user only.
    pub fn require_u2f(&mut self, credential: Credential, acceptable: bool) -> (r: Result<
        (),
        Error,
    >)
        requires
            old(self).wf(),
        ensures
            final(self).wf(),
            old(self).key_required(credential, acceptable, *final(self), r),
    {
        if !acceptable {
            return Err(Error::CredentialRefused);
        }
        if self.record.account.is_none() {
            return Err(Error::PasswordFirst);
        }
        match self.advance() {
            Ok(()) => {},
            Err(e) => return Err(e),
        }
        self.record.u2f = Some(credential);
        self.record.u2f_counter = 0;
        Ok(())
    }

    /// The record once no key is required any more.
    pub open spec fn key_dropped(self, after: ServerState, r: Result<(), Error>) -> bool {
        &&& r is Ok <==> self.record.generation < u64::MAX
        &&& r is Ok ==> after == (ServerState {
            record: Record {
                u2f: None,
                u2f_counter: 0,
                generation: (self.record.generation + 1) as u64,
                ..self.record
            },
            ..self
        })
        &&& r matches Err(e) ==> after == self && e == Error::GenerationExhausted
    }

    pub fn disable_u2f(&mut self) -> (r: Result<(), Error>)
        requires
            old(self).wf(),
        ensures
            final(self).wf(),
            old(self).key_dropped(*final(self), r),
    {
        match self.advance() {
            Ok(()) => {},
            Err(e) => return Err(e),
        }
        self.record.u2f = None;
        self.record.u2f_counter = 0;
        Ok(())
    }

    /// A touch that carries `counter` may go on with a login that began in
    /// `generation`: the key has not been used with this counter or a later one.
    pub open spec fn touch_acceptable(&self, generation: u64, counter: u32) -> bool {
        self.record.generation == generation && self.record.u2f is Some && counter
            > self.record.u2f_counter
    }

    /// The security key of a login that began in `generation` was touched, and its
    /// assertion was verified to carry `counter`; `None` stands for an assertion
    /// that was not verified.
    pub fn accept_touch(&mut self, generation: u64, counter: Option<u32>) -> (r: Result<(), Error>)
        requires
            old(self).wf(),
        ensures
            final(self).wf(),
            r is Ok <==> counter is Some && old(self).touch_acceptable(generation, counter->0),
            r is Ok ==> *final(self) == (ServerState {
                record: Record { u2f_counter: counter->0, ..old(self).record },
                ..*old(self)
            }),
            r matches Err(e) ==> *final(self) == *old(self) && e == if old(self).record.generation
                != generation {
                Error::SettingsChanged
            } else if old(self).record.u2f is None {
                Error::KeySettingsChanged
            } else if counter is None {
                Error::TouchAuthentication
            } else {
                Error::CounterStalled
            },
    {
        if self.record.generation != generation {
            return Err(Error::SettingsChanged);
        }
        if self.record.u2f.is_none() {
            return Err(Error::KeySettingsChanged);
        }
        match counter {
            Some(counter) => {
                if counter <= self.record.u2f_counter {
                    return Err(Error::CounterStalled);
                }
                self.record.u2f_counter = counter;
                Ok(())
            },
            None => Err(Error::TouchAuthentication),
        }
    }

    /// A new user name and password. `registration` is the server's half of the
    /// password registration. Devices that came by the old password are forgotten;
    /// those that came by a code stay.
    pub fn set_password(&mut self, username: &str, password: &str, registration: Vec<u8>) -> (r:
        Result<(), Error>)
        requires
            old(self).wf(),
        ensures
            final(self).wf(),
            r is Ok <==> access::username_valid(username@) && access::password_valid(password@)
                && old(self).record.generation < u64::MAX,
            r is Ok ==> {
                &&& final(self).record.account is Some
                &&& final(self).record.account->0.username@ == username@
                &&& final(self).record.account->0.registration == registration
                &&& final(self).record.devices@ == old(self).record.devices@.filter(
                    not_from(FROM_PASSWORD@),
                )
                &&& *final(self) == (ServerState {
                    record: Record {
                        account: final(self).record.account,
                        devices: final(self).record.devices,
                        generation: (old(self).record.generation + 1) as u64,
                        ..old(self).record
                    },
                    ..*old(self)
                })
            },
            r matches Err(e) ==> *final(self) == *old(self) && e == if !access::username_valid(
                username@,
            ) {
                Error::Username
            } else if !access::password_valid(password@) {
                access::password_refusal(password@)
            } else {
                Error::GenerationExhausted
            },
    {
        match access::validate_username(username) {
            Ok(()) => {},
            Err(e) => return Err(e),
        }
        match access::validate_password(password) {
            Ok(()) => {},
            Err(e) => return Err(e),
        }
        match self.advance() {
            Ok(()) => {},
            Err(e) => return Err(e),
        }
        self.record.account = Some(Account { username: username.to_string(), registration });
        self.forget_password_devices();
        Ok(())
    }

    fn forget_password_devices(&mut self)
        requires
            old(self).wf(),
        ensures
            final(self).wf(),
            final(self).record.devices@ == old(self).record.devices@.filter(
                not_from(FROM_PASSWORD@),
            ),
            *final(self) == (ServerState {
                record: Record { devices: final(self).record.devices, ..old(self).record },
                ..*old(self)
            }),
    {
        let keep = |d: &Device| -> (b: bool)
            ensures
                b == not_from(FROM_PASSWORD@)(*d),
        {
            !text::same(d.summary.source.as_str(), FROM_PASSWORD)
        };
        lists::retain(&mut self.record.devices, keep, Ghost(not_from(FROM_PASSWORD@)));
        proof {
            filtered_devices_stay_valid(old(self).record.devices@, not_from(FROM_PASSWORD@));
        }
    }

    /// No new password logins, and no devices that came by one.
    pub fn disable_password(&mut self) -> (r: Result<(), Error>)
        requires
            old(self).wf(),
        ensures
            final(self).wf(),
            r is Ok <==> old(self).record.generation < u64::MAX,
            r is Ok ==> {
                &&& final(self).record.devices@ == old(self).record.devices@.filter(
                    not_from(FROM_PASSWORD@),
                )
                &&& *final(self) == (ServerState {
                    record: Record {
                        account: None,
                        devices: final(self).record.devices,
                        generation: (old(self).record.generation + 1) as u64,
                        ..old(self).record
                    },
                    ..*old(self)
                })
            },
            r matches Err(e) ==> *final(self) == *old(self) && e == Error::GenerationExhausted,
    {
        match self.advance() {
            Ok(()) => {},
            Err(e) => return Err(e),
        }
        self.record.account = None;
        self.forget_password_devices();
        Ok(())
    }

    /// The device with this identifier is trusted no longer.
    pub fn revoke_device(&mut self, id: &str) -> (r: Result<(), Error>)
        requires
            old(self).wf(),
        ensures
            final(self).wf(),
            r is Ok <==> exists|i: int|
                0 <= i < old(self).record.devices@.len() && (
                #[trigger] old(self).record.devices@[i]).summary.id@ == id@,
            r is Ok ==> {
                &&& final(self).record.devices@ == old(self).record.devices@.filter(not_named(id@))
                &&& *final(self) == (ServerState {
                    record: Record { devices: final(self).record.devices, ..old(self).record },
                    ..*old(self)
                })
            },
            r matches Err(e) ==> *final(self) == *old(self) && e == Error::DeviceNotFound,
    {
        let mut found = false;
        let mut i: usize = 0;
        while i < self.record.devices.len()
            invariant
                i <= self.record.devices@.len(),
                *self == *old(self),
                found <==> exists|j: int|
                    0 <= j < i && (#[trigger] self.record.devices@[j]).summary.id@ == id@,
            decreases self.record.devices@.len() - i,
        {
            if text::same(self.record.devices[i].summary.id.as_str(), id) {
                found = true;
            }
            assert(self.record.devices@[i as int] == self.record.devices[i as int]);
            i += 1;
        }
        if !found {
            return Err(Error::DeviceNotFound);
        }
        let keep = |d: &Device| -> (b: bool)
            ensures
                b == not_named(id@)(*d),
        {
            !text::same(d.summary.id.as_str(), id)
        };
        lists::retain(&mut self.record.devices, keep, Ghost(not_named(id@)));
        proof {
            filtered_devices_stay_valid(old(self).record.devices@, not_named(id@));
        }
        Ok(())
    }

    /// No device is trusted any longer, and no ticket.
    pub fn revoke_all_devices(&mut self) -> (r: Result<(), Error>)
        requires
            old(self).wf(),
        ensures
            final(self).wf(),
            r is Ok <==> old(self).record.generation < u64::MAX,
            r is Ok ==> {
                &&& final(self).record.devices@.len() == 0
                &&& *final(self) == (ServerState {
                    record: Record {
                        devices: final(self).record.devices,
                        generation: (old(self).record.generation + 1) as u64,
                        ..old(self).record
                    },
                    ..*old(self)
                })
            },
            r matches Err(e) ==> *final(self) == *old(self) && e == Error::GenerationExhausted,
    {
        match self.advance() {
            Ok(()) => {},
            Err(e) => return Err(e),
        }
        self.record.devices = Vec::new();
        Ok(())
    }

    /// Whether some device has this token hash. Every device is looked at.
    fn device_accepts(&self, hash: &Vec<u8>) -> (r: bool)
        ensures
            r == some_device(self.record.devices@, hash@),
    {
        let mut accepted = false;
        let mut i: usize = 0;
        while i < self.record.devices.len()
            invariant
                i <= self.record.devices@.len(),
                accepted <==> exists|j: int|
                    0 <= j < i && (#[trigger] self.record.devices@[j]).token_hash@ == hash@,
            decreases self.record.devices@.len() - i,
        {
            let equal = crypto::constant_time_eq(
                self.record.devices[i].token_hash.as_slice(),
                hash.as_slice(),
            );
            assert(equal == (self.record.devices@[i as int].token_hash@ == hash@));
            accepted = equal || accepted;
            i += 1;
        }
        accepted
    }

    fn is_legacy(&self, token: &str) -> (r: bool)
        ensures
            r == (token@ == self.legacy.token@),
    {
        let r = crypto::constant_time_eq(token.as_bytes(), self.legacy.token.as_str().as_bytes());
        proof {
            if r {
                text::encoding_is_injective(token@, self.legacy.token@);
            }
        }
        r
    }

    /// The place of the ticket with this hash.
    fn ticket(&self, hash: &Vec<u8>) -> (r: Option<usize>)
        ensures
            r matches Some(i) ==> i < self.system_sessions@.len()
                && self.system_sessions@[i as int].hash@ == hash@,
            r is None ==> forall|i: int|
                0 <= i < self.system_sessions@.len() ==> (
                #[trigger] self.system_sessions@[i]).hash@ != hash@,
    {
        let mut i: usize = 0;
        while i < self.system_sessions.len()
            invariant
                i <= self.system_sessions@.len(),
                forall|j: int|
                    0 <= j < i ==> (#[trigger] self.system_sessions@[j]).hash@ != hash@,
            decreases self.system_sessions@.len() - i,
        {
            if text::same_bytes(self.system_sessions[i].hash.as_slice(), hash.as_slice()) {
                return Some(i);
            }
            i += 1;
        }
        None
    }

    /// Whether a token opens a session at `now`.
    pub fn authorized_at(&self, token: &str, now: u128) -> (r: bool)
        requires
            self.wf(),
        ensures
            r == self.accepts(token@, now),
    {
        if !text::is_token_form(token) {
            return false;
        }
        if self.is_legacy(token) {
            return true;
        }
        let hash = token_hash(token);
        if self.system_login_allowed() {
            if let Some(i) = self.ticket(&hash) {
                let session = &self.system_sessions[i];
                assert(self.system_sessions@[i as int] == *session);
                if session.generation == self.record.generation && (session.active
                    || session.deadline > now) {
                    return true;
                }
                assert(forall|j: int|
                    0 <= j < self.system_sessions@.len() && (
                    #[trigger] self.system_sessions@[j]).hash@ == hash@ ==> j == i);
            }
        }
        self.device_accepts(&hash)
    }

    /// Whether a token opens a session now.
    pub fn authorized(&self, token: &str) -> (r: bool)
        requires
            self.wf(),
        ensures
            exists|now: u128| r == #[trigger] self.accepts(token@, now),
            text::token_form(token@) && self.saved(token@) ==> r,
            !text::token_form(token@) ==> !r,
    {
        let now: u128 = clock::nanos_since(&self.origin);
        self.authorized_at(token, now)
    }

    /// Whether a system login may take the place of a password login. It may not
    /// where a security key is required: it would be a way around the key.
    pub fn system_login_allowed(&self) -> (r: bool)
        ensures
            r == (self.record.u2f is None),
    {
        self.record.u2f.is_none()
    }

    pub fn system_generation(&self) -> (r: u64)
        ensures
            r == self.record.generation,
    {
        self.record.generation
    }

    /// A system login that began in `generation` is still valid.
    pub open spec fn ticket_permitted(&self, generation: u64) -> bool {
        self.record.generation == generation && self.record.u2f is None
    }

    /// There is room for one more ticket at `now`, dead ones aside.
    pub open spec fn ticket_room(&self, generation: u64, now: u128) -> bool {
        self.system_sessions@.filter(live(generation, now)).len() < MAX_TICKETS
    }

    /// What a request for a ticket makes of the state `before`. Dead tickets are
    /// cleared away, and the new one, if it is granted, comes last.
    pub open spec fn ticket_requested(
        &self,
        before: &ServerState,
        generation: u64,
        now: u128,
        token: Seq<char>,
    ) -> bool {
        let kept = before.system_sessions@.filter(live(generation, now));
        let tickets = self.system_sessions@;
        if !before.ticket_permitted(generation) {
            *self == *before
        } else {
            &&& *self == (ServerState { system_sessions: self.system_sessions, ..*before })
            &&& if before.ticket_room(generation, now) {
                &&& tickets.len() > 0
                &&& tickets.drop_last() == kept.filter(other_ticket(token_hash_of(token)))
                &&& tickets.last().hash@ == token_hash_of(token)
                &&& tickets.last().generation == generation
                &&& tickets.last().deadline == clock::later(now, TICKET_LIFETIME)
                &&& !tickets.last().active
            } else {
                tickets == kept
            }
        }
    }

    /// A ticket for a system login that began in `generation`, at `now`, with the
    /// given fresh token.
    pub fn issue_system_session_with(&mut self, generation: u64, now: u128, token: &str) -> (r:
        Result<Pairing, Error>)
        requires
            old(self).wf(),
        ensures
            final(self).wf(),
            r is Ok <==> old(self).ticket_permitted(generation) && old(self).ticket_room(
                generation,
                now,
            ),
            r matches Ok(pairing) ==> pairing.token@ == token@ && pairing.fingerprint@ == old(
                self,
            ).legacy.fingerprint@,
            r matches Err(e) ==> e == if old(self).ticket_permitted(generation) {
                Error::LoginUnavailable
            } else {
                Error::LoginFailed
            },
            final(self).ticket_requested(old(self), generation, now, token@),
    {
        if !(self.record.generation == generation && self.record.u2f.is_none()) {
            return Err(Error::LoginFailed);
        }
        let keep = |s: &SystemSession| -> (b: bool)
            ensures
                b == live(generation, now)(*s),
        {
            s.generation == generation && (s.active || s.deadline > now)
        };
        lists::retain(&mut self.system_sessions, keep, Ghost(live(generation, now)));
        proof {
            filtered_tickets_stay_valid(old(self).system_sessions@, live(generation, now));
        }
        if self.system_sessions.len() >= MAX_TICKETS {
            return Err(Error::LoginUnavailable);
        }
        let hash = token_hash(token);
        let ghost kept = self.system_sessions@;
        let other = |s: &SystemSession| -> (b: bool)
            ensures
                b == other_ticket(hash@)(*s),
        {
            !text::same_bytes(s.hash.as_slice(), hash.as_slice())
        };
        lists::retain(&mut self.system_sessions, other, Ghost(other_ticket(hash@)));
        proof {
            filtered_tickets_stay_valid(kept, other_ticket(hash@));
            lists::filter_facts(kept, other_ticket(hash@));
        }
        let ghost others = self.system_sessions@;
        self.system_sessions.push(
            SystemSession {
                hash,
                generation,
                deadline: clock::after(now, TICKET_LIFETIME),
                active: false,
            },
        );
        assert(self.system_sessions@.drop_last() =~= others);
        assert(self.system_sessions@[self.system_sessions@.len() - 1]
            == self.system_sessions@.last());
        Ok(
            Pairing { token: token.to_string(), fingerprint: self.legacy.fingerprint.clone() },
        )
    }

    /// A ticket for a system login that began in `generation`, now and with a fresh
    /// token.
    pub fn issue_system_session(&mut self, generation: u64) -> (r: Result<Pairing, Error>)
        requires
            old(self).wf(),
        ensures
            final(self).wf(),
            exists|now: u128, token: Seq<char>|
                {
                    &&& #[trigger] final(self).ticket_requested(old(self), generation, now, token)
                    &&& text::token_form(token)
                    &&& r is Ok <==> old(self).ticket_permitted(generation) && old(
                        self,
                    ).ticket_room(generation, now)
                    &&& r matches Ok(pairing) ==> pairing.token@ == token
                },
            r matches Ok(pairing) ==> pairing.fingerprint@ == old(self).legacy.fingerprint@,
            r matches Err(e) ==> e == if old(self).ticket_permitted(generation) {
                Error::LoginUnavailable
            } else {
                Error::LoginFailed
            },
    {
        let now: u128 = clock::nanos_since(&self.origin);
        let token = identity::token();
        self.issue_system_session_with(generation, now, token.as_str())
    }

    /// There is a ticket for this token.
    pub open spec fn ticketed(&self, token: Seq<char>) -> bool {
        exists|i: int|
            0 <= i < self.system_sessions@.len() && (#[trigger] self.system_sessions@[i]).hash@
                == token_hash_of(token)
    }

    /// There is a ticket for this token that can begin a session at `now`.
    pub open spec fn claimable(&self, token: Seq<char>, now: u128) -> bool {
        exists|i: int|
            0 <= i < self.system_sessions@.len() && (#[trigger] self.system_sessions@[i]).hash@
                == token_hash_of(token) && ticket_claimable(
                self.system_sessions@[i],
                self.record,
                now,
            )
    }

    /// A session may begin with this token at `now`.
    pub open spec fn may_begin(&self, token: Seq<char>, now: u128) -> bool {
        text::token_form(token) && (self.saved(token) || self.claimable(token, now))
    }

    /// What the beginning of a session makes of the state `before`: a ticket that
    /// begins one is marked as in use.
    pub open spec fn begun(&self, before: &ServerState, token: Seq<char>, now: u128) -> bool {
        if before.may_begin(token, now) && !before.saved(token) {
            &&& *self == (ServerState { system_sessions: self.system_sessions, ..*before })
            &&& self.system_sessions@.len() == before.system_sessions@.len()
            &&& forall|i: int|
                0 <= i < self.system_sessions@.len() ==> #[trigger] self.system_sessions@[i] == if (
                before.system_sessions@[i].hash@ == token_hash_of(token)) {
                    SystemSession { active: true, ..before.system_sessions@[i] }
                } else {
                    before.system_sessions@[i]
                }
        } else {
            *self == *before
        }
    }

    /// A session begins at `now`. A ticket begins one session and no more; saved
    /// trust begins as many as it likes. Absence from the tickets never turns a
    /// revoked ticket into reusable trust.
    pub fn begin_session_at(&mut self, token: &str, now: u128) -> (r: Result<SessionLease, Error>)
        requires
            old(self).wf(),
        ensures
            final(self).wf(),
            r is Ok <==> old(self).may_begin(token@, now),
            r matches Ok(lease) ==> lease.hash@ == token_hash_of(token@),
            r matches Err(e) ==> e == if text::token_form(token@) && old(self).ticketed(token@) {
                Error::TicketSpent
            } else {
                Error::Unauthorized
            },
            final(self).begun(old(self), token@, now),
    {
        if !text::is_token_form(token) {
            return Err(Error::Unauthorized);
        }
        let hash = token_hash(token);
        let legacy = self.is_legacy(token);
        let device = self.device_accepts(&hash);
        if !(legacy || device) {
            match self.ticket(&hash) {
                Some(i) => {
                    let session = &self.system_sessions[i];
                    assert(old(self).system_sessions@[i as int] == *session);
                    let claimable = self.record.u2f.is_none() && session.generation
                        == self.record.generation && !session.active && session.deadline > now;
                    assert(claimable == ticket_claimable(*session, self.record, now));
                    assert(forall|j: int|
                        0 <= j < self.system_sessions@.len() && (
                        #[trigger] self.system_sessions@[j]).hash@ == hash@ ==> j == i);
                    if !claimable {
                        return Err(Error::TicketSpent);
                    }
                    self.system_sessions[i].active = true;
                    assert(self.system_sessions@ =~= old(self).system_sessions@.update(
                        i as int,
                        SystemSession { active: true, ..old(self).system_sessions@[i as int] },
                    ));
                },
                None => return Err(Error::Unauthorized),
            }
        }
        Ok(SessionLease { hash })
    }

    /// A session begins now.
    pub fn begin_session(&mut self, token: &str) -> (r: Result<SessionLease, Error>)
        requires
            old(self).wf(),
        ensures
            final(self).wf(),
            exists|now: u128|
                (r is Ok <==> old(self).may_begin(token@, now)) && #[trigger] final(self).begun(
                    old(self),
                    token@,
                    now,
                ),
            r matches Ok(lease) ==> lease.hash@ == token_hash_of(token@),
            r matches Err(e) ==> e == if text::token_form(token@) && old(self).ticketed(token@) {
                Error::TicketSpent
            } else {
                Error::Unauthorized
            },
            text::token_form(token@) && old(self).saved(token@) ==> r is Ok,
    {
        let now: u128 = clock::nanos_since(&self.origin);
        self.begin_session_at(token, now)
    }

    /// The tickets once a session has ended.
    pub open spec fn given_back(self, lease: SessionLease, after: ServerState) -> bool {
        &&& after.system_sessions@ == self.system_sessions@.filter(
            other_ticket(lease.hash@),
        )
        &&& after == (ServerState {
            system_sessions: after.system_sessions,
            ..self
        })
    }

    /// A session has ended, was cancelled or could not be set up: its ticket, if it
    /// had one, is destroyed.
    pub fn end_session(&mut self, lease: SessionLease)
        requires
            old(self).wf(),
        ensures
            final(self).wf(),
            old(self).given_back(lease, *final(self)),
    {
        let hash = lease.hash;
        let other = |s: &SystemSession| -> (b: bool)
            ensures
                b == other_ticket(hash@)(*s),
        {
            !text::same_bytes(s.hash.as_slice(), hash.as_slice())
        };
        lists::retain(&mut self.system_sessions, other, Ghost(other_ticket(hash@)));
        proof {
            filtered_tickets_stay_valid(old(self).system_sessions@, other_ticket(hash@));
        }
    }

    /// Forgets the attempts that have left the window, and the sources that have
    /// none left.
    fn prune(&mut self, time: u64)
        requires
            old(self).wf(),
        ensures
            final(self).wf(),
            entries(final(self).sources@) == pruned(entries(old(self).sources@), time),
            *final(self) == (ServerState { sources: final(self).sources, ..*old(self) }),
    {
        let ghost all = self.sources@;
        let ghost marked = entries(all).map_values(
            |e: (Address, Seq<u64>)| (e.0, e.1.filter(recent(time))),
        );
        let mut i: usize = 0;
        while i < self.sources.len()
            invariant
                i <= self.sources@.len(),
                self.sources@.len() == all.len(),
                *self == (ServerState { sources: self.sources, ..*old(self) }),
                forall|j: int|
                    0 <= j < i ==> (#[trigger] self.sources@[j]).ip == all[j].ip
                        && self.sources@[j].times@ == all[j].times@.filter(recent(time)),
                forall|j: int| i <= j < all.len() ==> #[trigger] self.sources@[j] == all[j],
            decreases all.len() - i,
        {
            let keep = |t: &u64| -> (b: bool)
                ensures
                    b == recent(time)(*t),
            {
                time.saturating_sub(*t) < ATTEMPT_WINDOW
            };
            lists::retain(&mut self.sources[i].times, keep, Ghost(recent(time)));
            i += 1;
        }
        assert(entries(self.sources@) =~= marked);
        let ghost cut = self.sources@;
        let ghost busy = |s: Source| s.times@.len() > 0;
        let keep = |s: &Source| -> (b: bool)
            ensures
                b == busy(*s),
        {
            s.times.len() > 0
        };
        lists::retain(&mut self.sources, keep, Ghost(busy));
        proof {
            let some = |e: (Address, Seq<u64>)| e.1.len() > 0;
            entries_of_filtered(cut, busy, some);
            assert(no_two_sources(cut));
            filtered_sources_stay_valid(cut, busy);
        }
    }

    /// The place of the source with this address.
    fn source(&self, ip: Address) -> (r: Option<usize>)
        ensures
            r matches Some(i) ==> i < self.sources@.len() && self.sources@[i as int].ip == ip,
            r is None ==> forall|i: int|
                0 <= i < self.sources@.len() ==> (#[trigger] self.sources@[i]).ip != ip,
    {
        let mut i: usize = 0;
        while i < self.sources.len()
            invariant
                i <= self.sources@.len(),
                forall|j: int| 0 <= j < i ==> (#[trigger] self.sources@[j]).ip != ip,
            decreases self.sources@.len() - i,
        {
            if self.sources[i].ip == ip {
                return Some(i);
            }
            i += 1;
        }
        None
    }

    /// Whether an attempt from `ip` at `time` is within the limits.
    pub open spec fn attempt_allowed(&self, ip: Address, time: u64) -> bool {
        let known = pruned(entries(self.sources@), time);
        &&& known.len() < MAX_SOURCES || has_source(known, ip)
        &&& attempts_from(known, ip).len() < MAX_SOURCE_ATTEMPTS
        &&& self.record.attempts@.filter(recent(time)).len() < MAX_ATTEMPTS
    }

    /// What an attempt makes of the state `before`: attempts outside the window are
    /// forgotten, and one within the limits is remembered, with its source and in
    /// the record.
    pub open spec fn attempted(&self, before: &ServerState, ip: Address, time: u64) -> bool {
        let known = pruned(entries(before.sources@), time);
        if before.attempt_allowed(ip, time) {
            &&& entries(self.sources@) == with_attempt(known, ip, time)
            &&& self.record.attempts@ == before.record.attempts@.filter(recent(time)).push(time)
            &&& *self == (ServerState {
                sources: self.sources,
                record: Record { attempts: self.record.attempts, ..before.record },
                ..*before
            })
        } else {
            &&& entries(self.sources@) == known
            &&& *self == (ServerState { sources: self.sources, ..*before })
        }
    }

    /// An attempt to log in from `ip` at `time`. The limit on all attempts is kept
    /// with the record, so that a restart does not open a new window; the limits
    /// on sources bound what one address can do.
    pub fn attempt_at(&mut self, ip: Address, time: u64) -> (r: Result<(), Error>)
        requires
            old(self).wf(),
        ensures
            final(self).wf(),
            r is Ok <==> old(self).attempt_allowed(ip, time),
            r matches Err(e) ==> e == Error::LoginUnavailable,
            final(self).attempted(old(self), ip, time),
    {
        self.prune(time);
        let ghost known = entries(self.sources@);
        let place = self.source(ip);
        proof {
            lookup(self.sources@, ip, place);
        }
        match place {
            Some(i) => {
                if self.sources[i].times.len() >= MAX_SOURCE_ATTEMPTS {
                    return Err(Error::LoginUnavailable);
                }
            },
            None => {
                if self.sources.len() >= MAX_SOURCES {
                    return Err(Error::LoginUnavailable);
                }
            },
        }
        let mut fresh: usize = 0;
        let mut k: usize = 0;
        proof {
            assert(self.record.attempts@.take(0) =~= Seq::<u64>::empty());
            reveal(Seq::filter);
        }
        while k < self.record.attempts.len()
            invariant
                k <= self.record.attempts@.len(),
                fresh == self.record.attempts@.take(k as int).filter(recent(time)).len(),
                fresh <= k,
            decreases self.record.attempts@.len() - k,
        {
            proof {
                let next = self.record.attempts@.take(k + 1);
                assert(next.drop_last() =~= self.record.attempts@.take(k as int));
                assert(next.last() == self.record.attempts@[k as int]);
                reveal(Seq::filter);
            }
            if time.saturating_sub(self.record.attempts[k]) < ATTEMPT_WINDOW {
                fresh += 1;
            }
            k += 1;
        }
        assert(self.record.attempts@.take(k as int) =~= self.record.attempts@);
        if fresh >= MAX_ATTEMPTS {
            return Err(Error::LoginUnavailable);
        }
        let keep = |t: &u64| -> (b: bool)
            ensures
                b == recent(time)(*t),
        {
            time.saturating_sub(*t) < ATTEMPT_WINDOW
        };
        lists::retain(&mut self.record.attempts, keep, Ghost(recent(time)));
        self.record.attempts.push(time);
        match place {
            Some(i) => {
                let ghost cut = self.sources@;
                self.sources[i].times.push(time);
                assert(entries(self.sources@) =~= with_attempt(known, ip, time));
            },
            None => {
                let mut times: Vec<u64> = Vec::new();
                times.push(time);
                assert(times@ =~= seq![time]);
                self.sources.push(Source { ip, times });
                assert(entries(self.sources@) =~= with_attempt(known, ip, time));
            },
        }
        Ok(())
    }

    /// An attempt to log in from `ip` now.
    pub fn attempt(&mut self, ip: Address) -> (r: Result<(), Error>)
        requires
            old(self).wf(),
        ensures
            final(self).wf(),
            exists|time: u64|
                (r is Ok <==> old(self).attempt_allowed(ip, time))
                    && #[trigger] final(self).attempted(old(self), ip, time),
            r matches Err(e) ==> e == Error::LoginUnavailable,
    {
        let time: u64 = clock::unix_seconds();
        self.attempt_at(ip, time)
    }

    /// System logins are admitted under the same limits.
    pub fn system_admit(&mut self, ip: Address) -> (r: Result<(), Error>)
        requires
            old(self).wf(),
        ensures
            final(self).wf(),
            exists|time: u64|
                (r is Ok <==> old(self).attempt_allowed(ip, time))
                    && #[trigger] final(self).attempted(old(self), ip, time),
            r matches Err(e) ==> e == Error::LoginUnavailable,
    {
        self.attempt(ip)
    }

    /// Adds a device, where there is room.
    fn add_device(&mut self, name: &str, source: &str, token: &str, id: &str, created: u64) -> (r:
        Result<Pairing, Error>)
        requires
            old(self).wf(),
        ensures
            final(self).wf(),
            r is Ok <==> old(self).record.devices@.len() < MAX_DEVICES,
            r matches Ok(pairing) ==> {
                &&& pairing.token@ == token@
                &&& pairing.fingerprint@ == old(self).legacy.fingerprint@
                &&& final(self).added_device(old(self), name@, source@, token@, id@, created)
            },
            r matches Err(e) ==> e == Error::DeviceLimit && *final(self) == *old(self),
    {
        if self.record.devices.len() >= MAX_DEVICES {
            return Err(Error::DeviceLimit);
        }
        let device = Device {
            summary: DeviceSummary {
                id: id.to_string(),
                name: name.to_string(),
                created_unix: created,
                source: source.to_string(),
            },
            token_hash: token_hash(token),
        };
        self.record.devices.push(device);
        assert(self.record.devices@.drop_last() =~= old(self).record.devices@);
        Ok(Pairing { token: token.to_string(), fingerprint: self.legacy.fingerprint.clone() })
    }

    /// Since `before`, one device has come behind the others, and nothing else has
    /// changed.
    pub open spec fn added_device(
        &self,
        before: &ServerState,
        name: Seq<char>,
        source: Seq<char>,
        token: Seq<char>,
        id: Seq<char>,
        created: u64,
    ) -> bool {
        let devices = self.record.devices@;
        &&& devices.len() == before.record.devices@.len() + 1
        &&& devices.drop_last() == before.record.devices@
        &&& devices.last().summary.name@ == name
        &&& devices.last().summary.source@ == source
        &&& devices.last().summary.id@ == id
        &&& devices.last().summary.created_unix == created
        &&& devices.last().token_hash@ == token_hash_of(token)
        &&& *self == (ServerState {
            record: Record { devices: self.record.devices, ..before.record },
            ..*before
        })
    }

    /// A password login that began in `generation` may still end with a credential.
    pub open spec fn may_issue(&self, generation: u64) -> bool {
        self.record.generation == generation && self.record.account is Some
    }

    /// The credential of a device whose password login began in `generation`.
    pub fn issue_with(
        &mut self,
        generation: u64,
        name: &str,
        token: &str,
        id: &str,
        created: u64,
    ) -> (r: Result<Pairing, Error>)
        requires
            old(self).wf(),
        ensures
            final(self).wf(),
            r is Ok <==> old(self).may_issue(generation) && old(self).record.devices@.len()
                < MAX_DEVICES,
            r matches Ok(pairing) ==> {
                &&& pairing.token@ == token@
                &&& pairing.fingerprint@ == old(self).legacy.fingerprint@
                &&& final(self).added_device(
                    old(self),
                    name@,
                    FROM_PASSWORD@,
                    token@,
                    id@,
                    created,
                )
            },
            r matches Err(e) ==> *final(self) == *old(self) && e == if old(self).may_issue(
                generation,
            ) {
                Error::DeviceLimit
            } else {
                Error::LoginFailed
            },
    {
        if !(self.record.generation == generation && self.record.account.is_some()) {
            return Err(Error::LoginFailed);
        }
        self.add_device(name, FROM_PASSWORD, token, id, created)
    }

    /// The credential of a device whose password login began in `generation`, with
    /// a fresh token.
    pub fn issue(&mut self, generation: u64, name: &str) -> (r: Result<Pairing, Error>)
        requires
            old(self).wf(),
        ensures
            final(self).wf(),
            r is Ok <==> old(self).may_issue(generation) && old(self).record.devices@.len()
                < MAX_DEVICES,
            r matches Ok(pairing) ==> {
                &&& text::token_form(pairing.token@)
                &&& pairing.fingerprint@ == old(self).legacy.fingerprint@
                &&& exists|id: Seq<char>, created: u64| #[trigger]
                    final(self).added_device(
                        old(self),
                        name@,
                        FROM_PASSWORD@,
                        pairing.token@,
                        id,
                        created,
                    )
            },
            r matches Err(e) ==> *final(self) == *old(self) && e == if old(self).may_issue(
                generation,
            ) {
                Error::DeviceLimit
            } else {
                Error::LoginFailed
            },
    {
        let token = identity::token();
        let id = identity::token();
        let created: u64 = clock::unix_seconds();
        self.issue_with(generation, name, token.as_str(), id.as_str(), created)
    }

    /// The record once a device was paired.
    pub open spec fn enrolled(
        self,
        name: Seq<char>,
        after: ServerState,
        r: Result<Pairing, Error>,
    ) -> bool {
        &&& r is Ok <==> access::device_name_valid(name) && self.record.devices@.len()
            < MAX_DEVICES
        &&& r matches Ok(pairing) ==> {
            &&& text::token_form(pairing.token@)
            &&& pairing.fingerprint@ == self.legacy.fingerprint@
            &&& exists|id: Seq<char>, created: u64| #[trigger]
                after.added_device(
                    &self,
                    name,
                    FROM_PAIRING@,
                    pairing.token@,
                    id,
                    created,
                )
        }
        &&& r matches Err(e) ==> after == self && e == if access::device_name_valid(
            name,
        ) {
            Error::DeviceLimit
        } else {
            Error::EnrollmentName
        }
    }

    /// The credential of a device that proved a one-time code. For the local
    /// pairing service only, once the proof has succeeded.
    pub fn enroll_device(&mut self, name: &str) -> (r: Result<Pairing, Error>)
        requires
            old(self).wf(),
        ensures
            final(self).wf(),
            old(self).enrolled(name@, *final(self), r),
    {
        if !access::is_device_name(name) {
            return Err(Error::EnrollmentName);
        }
        let token = identity::token();
        let id = identity::token();
        let created: u64 = clock::unix_seconds();
        self.add_device(name, FROM_PAIRING, token.as_str(), id.as_str(), created)
    }
}

/// What a search for an address found, in terms of the entries.
proof fn lookup(sources: Seq<Source>, ip: Address, place: Option<usize>)
    requires
        no_two_sources(sources),
        place matches Some(i) ==> i < sources.len() && sources[i as int].ip == ip,
        place is None ==> forall|i: int|
            0 <= i < sources.len() ==> (#[trigger] sources[i]).ip != ip,
    ensures
        has_source(entries(sources), ip) == (place is Some),
        place matches Some(i) ==> attempts_from(entries(sources), ip) == sources[i as int].times@,
        place is None ==> attempts_from(entries(sources), ip).len() == 0,
    decreases sources.len(),
{
    let all = entries(sources);
    if place is Some {
        assert(all[place->0 as int].0 == ip);
    } else {
        assert forall|i: int| 0 <= i < all.len() implies (#[trigger] all[i]).0 != ip by {
            assert(sources[i].ip != ip);
        }
    }
    if sources.len() > 0 {
        assert(all.drop_last() =~= entries(sources.drop_last()));
        assert(all.last() == (sources.last().ip, sources.last().times@));
        match place {
            Some(i) => {
                if i == sources.len() - 1 {
                } else {
                    assert(sources[i as int].ip != sources[sources.len() - 1].ip);
                    assert(sources.drop_last()[i as int] == sources[i as int]);
                    lookup(sources.drop_last(), ip, place);
                }
            },
            None => {
                assert(sources[sources.len() - 1].ip != ip);
                assert forall|i: int| 0 <= i < sources.drop_last().len() implies (
                #[trigger] sources.drop_last()[i]).ip != ip by {
                    assert(sources[i].ip != ip);
                }
                lookup(sources.drop_last(), ip, place);
            },
        }
    }
}

/// The entries of the sources that remain are the entries that remain.
proof fn entries_of_filtered(
    sources: Seq<Source>,
    keep: spec_fn(Source) -> bool,
    keep_entry: spec_fn((Address, Seq<u64>)) -> bool,
)
    requires
        forall|s: Source| #[trigger] keep(s) == keep_entry((s.ip, s.times@)),
    ensures
        entries(sources.filter(keep)) == entries(sources).filter(keep_entry),
    decreases sources.len(),
{
    reveal(Seq::filter);
    if sources.len() > 0 {
        entries_of_filtered(sources.drop_last(), keep, keep_entry);
        assert(entries(sources).drop_last() =~= entries(sources.drop_last()));
        assert(keep(sources.last()) == keep_entry(entries(sources).last()));
        if keep(sources.last()) {
            assert(entries(sources.drop_last().filter(keep).push(sources.last())) =~= entries(
                sources.drop_last().filter(keep),
            ).push((sources.last().ip, sources.last().times@)));
        }
    } else {
        assert(entries(sources.filter(keep)) =~= entries(sources).filter(keep_entry));
    }
}

/// Sources that remain are still of different addresses.
proof fn filtered_sources_stay_valid(sources: Seq<Source>, keep: spec_fn(Source) -> bool)
    requires
        no_two_sources(sources),
    ensures
        no_two_sources(sources.filter(keep)),
{
    let differ = |a: Source, b: Source| a.ip != b.ip;
    assert forall|i: int, j: int| 0 <= i < j < sources.len() implies differ(
        #[trigger] sources[i],
        #[trigger] sources[j],
    ) by {
    }
    lists::filter_keeps_pairs(sources, keep, differ);
    assert forall|i: int, j: int| 0 <= i < j < sources.filter(keep).len() implies (
    #[trigger] sources.filter(keep)[i]).ip != (#[trigger] sources.filter(keep)[j]).ip by {
        assert(differ(sources.filter(keep)[i], sources.filter(keep)[j]));
    }
}

/// Tickets that remain are tickets that were there.
proof fn filtered_tickets_stay_valid(
    tickets: Seq<SystemSession>,
    keep: spec_fn(SystemSession) -> bool,
)
    requires
        no_two_tickets(tickets),
    ensures
        no_two_tickets(tickets.filter(keep)),
        tickets.filter(keep).len() <= tickets.len(),
        forall|i: int|
            0 <= i < tickets.filter(keep).len() ==> tickets.contains(
                #[trigger] tickets.filter(keep)[i],
            ),
{
    lists::filter_facts(tickets, keep);
    let differ = |a: SystemSession, b: SystemSession| a.hash@ != b.hash@;
    assert forall|i: int, j: int| 0 <= i < j < tickets.len() implies differ(
        #[trigger] tickets[i],
        #[trigger] tickets[j],
    ) by {
    }
    lists::filter_keeps_pairs(tickets, keep, differ);
    assert forall|i: int, j: int| 0 <= i < j < tickets.filter(keep).len() implies (
    #[trigger] tickets.filter(keep)[i]).hash@ != (#[trigger] tickets.filter(keep)[j]).hash@ by {
        assert(differ(tickets.filter(keep)[i], tickets.filter(keep)[j]));
    }
}

/// Devices that remain are devices that were there.
proof fn filtered_devices_stay_valid(devices: Seq<Device>, keep: spec_fn(Device) -> bool)
    requires
        forall|i: int| 0 <= i < devices.len() ==> (#[trigger] devices[i]).token_hash@.len() == 32,
    ensures
        devices.filter(keep).len() <= devices.len(),
        forall|i: int|
            0 <= i < devices.filter(keep).len() ==> (#[trigger] devices.filter(
                keep,
            )[i]).token_hash@.len() == 32,
{
    lists::filter_facts(devices, keep);
}

/// The host's own token opens a session in every state.
pub proof fn own_token_opens(state: ServerState, now: u128)
    requires
        state.wf(),
    ensures
        state.accepts(state.legacy.token@, now),
{
}

/// A credential that was issued opens a session, at any time until it is revoked.
pub proof fn issued_credential_opens(
    before: ServerState,
    after: ServerState,
    name: Seq<char>,
    source: Seq<char>,
    token: Seq<char>,
    id: Seq<char>,
    created: u64,
    now: u128,
)
    requires
        after.added_device(&before, name, source, token, id, created),
        text::token_form(token),
    ensures
        after.accepts(token, now),
        forall|other: Seq<char>|
            before.accepts(other, now) ==> #[trigger] after.accepts(other, now),
{
    let n = after.record.devices@.len() - 1;
    assert(after.record.devices@[n].token_hash@ == token_hash_of(token));
    assert forall|other: Seq<char>| before.accepts(other, now) implies #[trigger] after.accepts(
        other,
        now,
    ) by {
        if some_device(before.record.devices@, token_hash_of(other)) {
            let i = choose|i: int|
                0 <= i < before.record.devices@.len() && (
                #[trigger] before.record.devices@[i]).token_hash@ == token_hash_of(other);
            assert(after.record.devices@.drop_last()[i] == before.record.devices@[i]);
            assert(after.record.devices@[i].token_hash@ == token_hash_of(other));
        } else if other != before.legacy.token@ {
            let i = choose|i: int|
                0 <= i < before.system_sessions@.len() && (
                #[trigger] before.system_sessions@[i]).hash@ == token_hash_of(other) && ticket_live(
                    before.system_sessions@[i],
                    before.record.generation,
                    now,
                );
            assert(after.system_sessions@[i].hash@ == token_hash_of(other));
        }
    }
}

/// Once all devices are revoked, the host's own token is the only one that opens a
/// session: neither devices nor tickets, in use or not, do.
pub proof fn revoking_all_leaves_the_own_token(
    before: ServerState,
    after: ServerState,
    token: Seq<char>,
    now: u128,
)
    requires
        before.wf(),
        before.record.generation < u64::MAX,
        after.record.devices@.len() == 0,
        after == (ServerState {
            record: Record {
                devices: after.record.devices,
                generation: (before.record.generation + 1) as u64,
                ..before.record
            },
            ..before
        }),
    ensures
        after.accepts(token, now) <==> token == before.legacy.token@,
        after.may_begin(token, now) <==> token == before.legacy.token@,
{
    assert forall|i: int| 0 <= i < after.system_sessions@.len() implies (
    #[trigger] after.system_sessions@[i]).generation != after.record.generation by {
        assert(before.system_sessions@[i].generation <= before.record.generation);
    }
}

/// A device whose identifier was revoked is gone; the others stay.
pub proof fn revoked_device_is_gone(devices: Seq<Device>, id: Seq<char>)
    ensures
        forall|i: int|
            0 <= i < devices.filter(not_named(id)).len() ==> (#[trigger] devices.filter(
                not_named(id),
            )[i]).summary.id@ != id,
        forall|i: int|
            0 <= i < devices.len() && (#[trigger] devices[i]).summary.id@ != id
                ==> devices.filter(not_named(id)).contains(devices[i]),
{
    lists::filter_facts(devices, not_named(id));
}

/// After a change of password no device is left that came by the old one, and
/// every device that came otherwise is.
pub proof fn password_change_forgets_password_devices(devices: Seq<Device>)
    ensures
        forall|i: int|
            0 <= i < devices.filter(not_from(FROM_PASSWORD@)).len() ==> (#[trigger] devices.filter(
                not_from(FROM_PASSWORD@),
            )[i]).summary.source@ != FROM_PASSWORD@,
        forall|i: int|
            0 <= i < devices.len() && (#[trigger] devices[i]).summary.source@ != FROM_PASSWORD@
                ==> devices.filter(not_from(FROM_PASSWORD@)).contains(devices[i]),
{
    lists::filter_facts(devices, not_from(FROM_PASSWORD@));
}

/// A login that was in progress when the policy changed ends without a credential
/// or a ticket, and its touch counts for nothing.
pub proof fn policy_change_ends_logins_in_progress(
    before: ServerState,
    after: ServerState,
    counter: u32,
)
    requires
        before.record.generation < u64::MAX,
        after.record.generation == before.record.generation + 1,
    ensures
        !after.may_issue(before.record.generation),
        !after.ticket_permitted(before.record.generation),
        !after.touch_acceptable(before.record.generation, counter),
{
}

/// A touch counts once: after it was accepted, neither the same counter nor an
/// earlier one is.
pub proof fn touch_counts_once(
    before: ServerState,
    after: ServerState,
    generation: u64,
    counter: u32,
    replayed: u32,
)
    requires
        before.touch_acceptable(generation, counter),
        after == (ServerState {
            record: Record { u2f_counter: counter, ..before.record },
            ..before
        }),
        replayed <= counter,
    ensures
        !after.touch_acceptable(generation, replayed),
{
}

/// A ticket begins one session: once it has, it begins no other, at any time, and
/// the session it began stays open for as long as the policy does not change.
pub proof fn ticket_begins_one_session(
    before: ServerState,
    after: ServerState,
    token: Seq<char>,
    now: u128,
    later: u128,
)
    requires
        before.wf(),
        after.begun(&before, token, now),
        before.may_begin(token, now),
        !before.saved(token),
    ensures
        !after.may_begin(token, later),
        after.accepts(token, later),
{
    let i = choose|i: int|
        0 <= i < before.system_sessions@.len() && (#[trigger] before.system_sessions@[i]).hash@
            == token_hash_of(token) && ticket_claimable(
            before.system_sessions@[i],
            before.record,
            now,
        );
    assert(after.system_sessions@[i].active);
    assert(!after.saved(token));
    assert forall|j: int|
        0 <= j < after.system_sessions@.len() && (#[trigger] after.system_sessions@[j]).hash@
            == token_hash_of(token) implies after.system_sessions@[j].active by {
        assert(before.system_sessions@[j].hash@ == token_hash_of(token));
    }
}

/// A ticket opens nothing once its session has ended.
pub proof fn ended_session_leaves_no_ticket(
    before: ServerState,
    after: ServerState,
    token: Seq<char>,
    now: u128,
)
    requires
        after.system_sessions@ == before.system_sessions@.filter(
            other_ticket(token_hash_of(token)),
        ),
        after == (ServerState { system_sessions: after.system_sessions, ..before }),
        !before.saved(token),
    ensures
        !after.accepts(token, now),
        !after.may_begin(token, now),
{
    lists::filter_facts(before.system_sessions@, other_ticket(token_hash_of(token)));
    assert forall|i: int| 0 <= i < after.system_sessions@.len() implies (
    #[trigger] after.system_sessions@[i]).hash@ != token_hash_of(token) by {
        assert(other_ticket(token_hash_of(token))(
            before.system_sessions@.filter(other_ticket(token_hash_of(token)))[i],
        ));
    }
}

/// A granted ticket opens a session until it expires, and not after that unless the
/// session has begun.
pub proof fn ticket_lasts_its_lifetime(
    before: ServerState,
    after: ServerState,
    generation: u64,
    now: u128,
    token: Seq<char>,
    later: u128,
)
    requires
        before.wf(),
        after.wf(),
        text::token_form(token),
        !before.saved(token),
        before.ticket_permitted(generation),
        before.ticket_room(generation, now),
        after.ticket_requested(&before, generation, now, token),
        now + TICKET_LIFETIME <= u128::MAX,
    ensures
        after.accepts(token, later) <==> later < now + TICKET_LIFETIME,
        after.may_begin(token, later) <==> later < now + TICKET_LIFETIME,
{
    let tickets = after.system_sessions@;
    let n = tickets.len() - 1;
    assert(tickets[n] == tickets.last());
    assert forall|i: int|
        0 <= i < tickets.len() && (#[trigger] tickets[i]).hash@ == token_hash_of(token) implies i
        == n by {
    }
    assert(!after.saved(token));
}

/// While a security key is required, no ticket opens a session.
pub proof fn security_key_rules_out_tickets(state: ServerState, token: Seq<char>, now: u128)
    requires
        state.record.u2f is Some,
        state.accepts(token, now) || state.may_begin(token, now),
    ensures
        state.saved(token),
{
}

/// There are never more attempts in the record than the limit, and after one they
/// all lie in the window.
pub proof fn attempts_are_limited(
    before: ServerState,
    after: ServerState,
    ip: Address,
    time: u64,
)
    requires
        before.wf(),
        after.attempted(&before, ip, time),
        before.attempt_allowed(ip, time),
    ensures
        1 <= after.record.attempts@.len() <= MAX_ATTEMPTS,
        forall|i: int|
            0 <= i < after.record.attempts@.len() ==> recent(time)(
                #[trigger] after.record.attempts@[i],
            ),
{
    let kept = before.record.attempts@.filter(recent(time));
    lists::filter_facts(before.record.attempts@, recent(time));
    assert forall|i: int| 0 <= i < after.record.attempts@.len() implies recent(time)(
        #[trigger] after.record.attempts@[i],
    ) by {
        if i < kept.len() {
            assert(recent(time)(kept[i]));
        }
    }
}

/// Once the window holds as many attempts as the limit allows, the next is refused,
/// wherever it comes from, and also by a host that was restarted in between: it
/// has the record, whatever else it forgot.
pub proof fn a_restart_opens_no_window(
    before: ServerState,
    restarted: ServerState,
    ip: Address,
    time: u64,
)
    requires
        before.record.attempts@.len() >= MAX_ATTEMPTS,
        forall|i: int|
            0 <= i < before.record.attempts@.len() ==> recent(time)(
                #[trigger] before.record.attempts@[i],
            ),
        restarted.record == before.record,
    ensures
        !before.attempt_allowed(ip, time),
        !restarted.attempt_allowed(ip, time),
{
    lists::filter_all(before.record.attempts@, recent(time));
}

} // verus!
