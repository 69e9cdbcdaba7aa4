//! The hosts that this machine trusts, each with the file that holds its
//! credential. The files themselves are the program's; here is what they are
//! called, what is checked of them, and how the list changes.
use crate::crypto;
use crate::error::Error;
use crate::lists;
use crate::pairing::{self, address_url, complete, plain_address, url_parts_of};
use crate::protocol::{Pairing, PairingView};
use crate::text;
use vstd::prelude::*;

verus! {

/// The largest credential or list.
pub const MAX_FILE: u64 = 65536;

/// The name of the list in the directory.
pub const LIST: &'static str = "profiles.json";

pub struct Profile {
    pub address: String,
    pub pairing_file: String,
}

impl Clone for Profile {
    fn clone(&self) -> (r: Self)
        ensures
            r == *self,
    {
        Profile { address: self.address.clone(), pairing_file: self.pairing_file.clone() }
    }
}

/// Where the directory is: below the user's home, or below the directory that the
/// user has set for configuration.
#[derive(Clone, Copy)]
pub enum Location {
    Home(&'static str),
    Config(&'static str),
}

/// Where the directory of profiles is.
pub open spec fn located(
    home: bool,
    config: bool,
    macos: bool,
    r: Result<Location, Error>,
) -> bool {
    &&& r is Ok <==> home
    &&& r matches Err(e) ==> e == Error::HomeMissing
    &&& r matches Ok(Location::Home(path)) ==> macos && path@
        == "Library/Application Support/Teleport"@ || !macos && !config && path@
        == ".config/teleport"@
    &&& r matches Ok(Location::Config(path)) ==> !macos && config && path@ == "teleport"@
}

pub fn directory(home: bool, config: bool, macos: bool) -> (r: Result<Location, Error>)
    ensures
        located(home, config, macos, r),
{
    if !home {
        Err(Error::HomeMissing)
    } else if macos {
        Ok(Location::Home("Library/Application Support/Teleport"))
    } else if config {
        Ok(Location::Config("teleport"))
    } else {
        Ok(Location::Home(".config/teleport"))
    }
}

/// What the file system says of a path, without following a link.
#[derive(Clone, Copy, PartialEq, Eq, Structural, Debug)]
pub struct PathFacts {
    pub directory: bool,
    pub file: bool,
    pub symlink: bool,
    pub length: u64,
    pub mode: u32,
}

/// The directory may be made, or used as it is.
pub fn prepare_directory(found: Option<PathFacts>) -> (r: Result<(), Error>)
    ensures
        r is Ok <==> (found matches Some(facts) ==> facts.directory && !facts.symlink),
        r matches Err(e) ==> e == Error::ProfileDirectory,
{
    match found {
        Some(facts) => if facts.directory && !facts.symlink {
            Ok(())
        } else {
            Err(Error::ProfileDirectory)
        },
        None => Ok(()),
    }
}

/// Nobody but the owner may read, write or execute.
pub open spec fn private(mode: u32) -> bool {
    mode & 0o077 == 0
}

impl PathFacts {
    /// A regular file of moderate size that is private to its owner.
    pub open spec fn credential(self) -> bool {
        self.file && !self.symlink && self.length <= MAX_FILE && private(self.mode)
    }

    /// Why a file that is no credential is refused.
    pub open spec fn refusal(self) -> Error {
        if !(self.file && !self.symlink) {
            Error::CredentialRegular
        } else if self.length > MAX_FILE {
            Error::CredentialLarge
        } else {
            Error::CredentialPublic
        }
    }
}

pub fn check_private_file(facts: PathFacts) -> (r: Result<(), Error>)
    ensures
        r is Ok <==> facts.credential(),
        r matches Err(e) ==> e == facts.refusal(),
{
    if !(facts.file && !facts.symlink) {
        return Err(Error::CredentialRegular);
    }
    if facts.length > MAX_FILE {
        return Err(Error::CredentialLarge);
    }
    if facts.mode & 0o077 != 0 {
        return Err(Error::CredentialPublic);
    }
    Ok(())
}

/// A profile can have this address.
pub open spec fn address_valid(address: Seq<char>) -> bool {
    plain_address(address) && complete(url_parts_of(address_url(address)))
}

/// Why an address that is not valid is refused.
pub open spec fn address_refusal(address: Seq<char>) -> Error {
    if !plain_address(address) {
        Error::ProfileAddress
    } else if url_parts_of(address_url(address)) is None {
        Error::AddressSyntax
    } else {
        Error::ProfilePort
    }
}

pub fn validate_address(address: &str) -> (r: Result<(), Error>)
    ensures
        r is Ok <==> address_valid(address@),
        r matches Err(e) ==> e == address_refusal(address@),
{
    if !pairing::is_plain_address(address) {
        return Err(Error::ProfileAddress);
    }
    pairing::check_parts(&pairing::address_parts(address), Error::ProfilePort)
}

// ---------------------------------------------------------------------- names

/// The name of a file for a credential, for this number.
pub open spec fn file_name(n: u64) -> Seq<char> {
    "pairing-"@ + text::number_hex(n) + ".json"@
}

pub fn pairing_file_name(n: u64) -> (r: String)
    ensures
        r@ == file_name(n),
{
    let digits = text::format_number(n);
    let mut out = String::new();
    out.push_str("pairing-");
    out.push_str(digits.as_str());
    out.push_str(".json");
    assert(out@ =~= file_name(n));
    out
}

/// A name for a new credential. Which one depends on chance.
pub fn fresh_file_name() -> (r: String)
    ensures
        exists|n: u64| r@ == #[trigger] file_name(n),
{
    pairing_file_name(crypto::random_u64())
}

/// The extension of a file that will replace another.
pub fn temporary_extension(n: u64) -> (r: String)
    ensures
        r@ == text::decimal(n as nat) + ".tmp"@,
{
    let mut out = String::new();
    text::push_decimal(&mut out, n);
    out.push_str(".tmp");
    assert(out@ =~= text::decimal(n as nat) + ".tmp"@);
    out
}

/// Different numbers give different names.
pub proof fn file_names_are_distinct(a: u64, b: u64)
    requires
        file_name(a) == file_name(b),
    ensures
        a == b,
{
    reveal_strlit("pairing-");
    reveal_strlit(".json");
    assert(text::number_hex(a) =~= file_name(a).subrange(8, 24));
    assert(text::number_hex(b) =~= file_name(b).subrange(8, 24));
    text::number_hex_is_injective(a, b);
}

// ------------------------------------------------------------------- the list

/// Why a credential for an address is not saved.
pub open spec fn pairing_refusal(address: Seq<char>, pairing: PairingView) -> Error {
    if !address_valid(address) {
        address_refusal(address)
    } else if !text::token_form(pairing.token) {
        Error::PairingToken
    } else {
        Error::Fingerprint
    }
}

/// What is checked before a credential is saved.
pub fn check_pairing(address: &str, pairing: &Pairing) -> (r: Result<(), Error>)
    ensures
        r is Ok <==> address_valid(address@) && pairing@.valid(),
        r matches Err(e) ==> e == pairing_refusal(address@, pairing@),
{
    match validate_address(address) {
        Ok(()) => {},
        Err(e) => return Err(e),
    }
    pairing.validate()
}

/// The profile is of another address.
pub open spec fn other_than(address: Seq<char>) -> spec_fn(Profile) -> bool {
    |p: Profile| p.address@ != address
}

/// A profile takes the place of one with its address. The program saves the list
/// that results before it uses it.
pub fn place(profiles: &mut Vec<Profile>, profile: Profile)
    ensures
        final(profiles)@ == old(profiles)@.filter(other_than(profile.address@)).push(profile),
{
    let keep = |p: &Profile| -> (b: bool)
        ensures
            b == other_than(profile.address@)(*p),
        { !text::same(p.address.as_str(), profile.address.as_str()) };
    lists::retain(profiles, keep, Ghost(other_than(profile.address@)));
    profiles.push(profile);
}

/// The list once a pairing was saved for this address.
pub open spec fn saved(
    address: Seq<char>,
    pairing: PairingView,
    pairing_file: String,
    before: Seq<Profile>,
    after: Seq<Profile>,
    r: Result<Profile, Error>,
) -> bool {
    &&& r is Ok <==> address_valid(address) && pairing.valid()
    &&& r matches Ok(profile) ==> {
        &&& profile.address@ == address
        &&& profile.pairing_file == pairing_file
        &&& after == before.filter(other_than(address)).push(profile)
    }
    &&& r matches Err(e) ==> e == pairing_refusal(address, pairing) && after == before
}

/// Saves a pairing that was received or imported: the profile for the address is
/// this one from now on. The program writes the credential to `pairing_file`, and
/// the list, before it uses them.
pub fn save_pairing(
    address: &str,
    pairing: &Pairing,
    profiles: &mut Vec<Profile>,
    pairing_file: String,
) -> (r: Result<Profile, Error>)
    ensures
        saved(address@, pairing@, pairing_file, old(profiles)@, final(profiles)@, r),
        r is Err ==> *final(profiles) == *old(profiles),
{
    match check_pairing(address, pairing) {
        Ok(()) => {},
        Err(e) => return Err(e),
    }
    let profile = Profile { address: address.to_string(), pairing_file };
    place(profiles, profile.clone());
    Ok(profile)
}

/// Imports a pairing from a file that is private to the user.
pub fn import(
    address: &str,
    facts: PathFacts,
    pairing: &Pairing,
    profiles: &mut Vec<Profile>,
    pairing_file: String,
) -> (r: Result<Profile, Error>)
    ensures
        r is Ok <==> facts.credential() && address_valid(address@) && pairing@.valid(),
        r matches Ok(profile) ==> {
            &&& profile.address@ == address@
            &&& profile.pairing_file == pairing_file
            &&& final(profiles)@ == old(profiles)@.filter(other_than(address@)).push(profile)
        },
        r matches Err(e) ==> *final(profiles) == *old(profiles) && e == if !facts.credential() {
            facts.refusal()
        } else {
            pairing_refusal(address@, pairing@)
        },
{
    match check_private_file(facts) {
        Ok(()) => {},
        Err(e) => return Err(e),
    }
    save_pairing(address, pairing, profiles, pairing_file)
}

/// A host has one profile at most, the last that was saved, and saving it touches
/// no other host's.
pub proof fn one_profile_for_a_host(before: Seq<Profile>, profile: Profile, i: int)
    requires
        0 <= i < before.filter(other_than(profile.address@)).len(),
    ensures
        before.filter(other_than(profile.address@)).push(profile).last() == profile,
        before.filter(other_than(profile.address@)).push(profile)[i].address@ != profile.address@,
        before.contains(before.filter(other_than(profile.address@))[i]),
        forall|k: int|
            0 <= k < before.len() && (#[trigger] before[k]).address@ != profile.address@
                ==> before.filter(other_than(profile.address@)).contains(before[k]),
{
    let wanted = other_than(profile.address@);
    lists::filter_facts(before, wanted);
    assert(wanted(before.filter(wanted)[i]));
    assert forall|k: int|
        0 <= k < before.len() && (#[trigger] before[k]).address@
            != profile.address@ implies before.filter(wanted).contains(before[k]) by {
        assert(wanted(before[k]));
    }
}

} // verus!
