//! The check of a password against an account of the operating system, in a helper
//! that the administrator has installed. Only the account that the host runs as can
//! be checked.
use crate::error::Error;
use crate::text;
use crate::wire;
use vstd::prelude::*;
use vstd::utf8::encode_utf8;

verus! {

/// What a request to the helper begins with, and what the helper answers where it
/// agrees.
pub const MAGIC: &'static str = "TPAM0001";

pub const AGREED: &'static str = "OK\n";

/// How long the helper may take, in nanoseconds.
pub const WORKER_TIMEOUT: u128 = 20_000_000_000;

/// Who the host runs as.
#[derive(Clone, Copy, PartialEq, Eq, Structural, Debug)]
pub struct Process {
    pub uid: u32,
    pub effective_uid: u32,
    pub gid: u32,
    pub effective_gid: u32,
}

impl Process {
    /// An ordinary user, and nobody else at the same time.
    pub open spec fn unprivileged(self) -> bool {
        self.uid != 0 && self.uid == self.effective_uid && self.gid == self.effective_gid
    }
}

/// What the system knows of an account with the requested name.
pub struct Account {
    pub uid: u32,
    /// The name that the system has for it, in bytes.
    pub name: Option<Vec<u8>>,
}

pub open spec fn name_valid(username: Seq<char>) -> bool {
    1 <= encode_utf8(username).len() <= 256 && !username.contains('\0')
}

/// Why an account may not be used, the first reason that applies.
pub open spec fn complaint(username: Seq<char>, process: Process, account: Option<Account>) -> Option<
    Error,
> {
    if !name_valid(username) {
        Some(Error::AccountName)
    } else if !process.unprivileged() {
        Some(Error::PrivilegedHost)
    } else {
        match account {
            None => Some(Error::AccountUnavailable),
            Some(account) => if account.uid != process.uid || account.name is None {
                Some(Error::AccountOwner)
            } else if account.name->0@ != encode_utf8(username) {
                Some(Error::AccountAlias)
            } else {
                None
            },
        }
    }
}

/// The account must be the host's own, by its own name.
pub fn validate_self_user(username: &str, process: Process, account: &Option<Account>) -> (r:
    Result<(), Error>)
    ensures
        r is Ok <==> complaint(username@, process, *account) is None,
        r matches Err(e) ==> complaint(username@, process, *account) == Some(e),
{
    let length: usize = text::byte_len(username);
    if length < 1 || length > 256 || text::contains(username, '\0') {
        return Err(Error::AccountName);
    }
    if !(process.uid != 0 && process.uid == process.effective_uid && process.gid
        == process.effective_gid) {
        return Err(Error::PrivilegedHost);
    }
    match account {
        None => Err(Error::AccountUnavailable),
        Some(account) => match &account.name {
            None => Err(Error::AccountOwner),
            Some(name) => {
                if account.uid != process.uid {
                    return Err(Error::AccountOwner);
                }
                if !text::same_bytes(name.as_slice(), username.as_bytes()) {
                    return Err(Error::AccountAlias);
                }
                Ok(())
            },
        },
    }
}

/// Root can never be checked, whoever the host runs as.
pub proof fn root_is_never_checked(username: Seq<char>, process: Process, account: Account)
    requires
        account.uid == 0,
    ensures
        complaint(username, process, Some(account)) is Some,
{
}

pub open spec fn password_valid(password: Seq<char>) -> bool {
    1 <= encode_utf8(password).len() <= 4096 && !password.contains('\0')
}

/// What the helper is told: the lengths of both texts in four bytes each, and then
/// the texts.
pub open spec fn request_of(username: Seq<char>, password: Seq<char>) -> Seq<u8> {
    encode_utf8(MAGIC@) + wire::be32(encode_utf8(username).len()) + wire::be32(
        encode_utf8(password).len(),
    ) + encode_utf8(username) + encode_utf8(password)
}

pub fn request(username: &str, password: &str) -> (r: Result<Vec<u8>, Error>)
    ensures
        r is Ok <==> name_valid(username@) && password_valid(password@),
        r matches Ok(frame) ==> frame@ == request_of(username@, password@),
        r matches Err(e) ==> e == if name_valid(username@) {
            Error::AccountPassword
        } else {
            Error::AccountName
        },
{
    let name: usize = text::byte_len(username);
    let secret: usize = text::byte_len(password);
    if name < 1 || name > 256 || text::contains(username, '\0') {
        return Err(Error::AccountName);
    }
    if secret < 1 || secret > 4096 || text::contains(password, '\0') {
        return Err(Error::AccountPassword);
    }
    let mut out: Vec<u8> = Vec::new();
    out.extend_from_slice(MAGIC.as_bytes());
    wire::push_be32(&mut out, name as u32);
    wire::push_be32(&mut out, secret as u32);
    out.extend_from_slice(username.as_bytes());
    out.extend_from_slice(password.as_bytes());
    assert(out@ =~= request_of(username@, password@));
    Ok(out)
}

/// What the file system says of the helper.
#[derive(Clone, Copy, PartialEq, Eq, Structural, Debug)]
pub struct HelperFacts {
    pub file: bool,
    pub uid: u32,
    pub mode: u32,
}

impl HelperFacts {
    /// Root's own, executable, without the rights of another user or group, and not
    /// to be changed by anyone else.
    pub open spec fn trusted(self) -> bool {
        self.file && self.uid == 0 && self.mode & 0o6022 == 0 && self.mode & 0o111 != 0
    }
}

/// A directory in which nobody but root can replace what is root's: one that others
/// cannot write, or a sticky one.
pub open spec fn directory_trusted(uid: u32, mode: u32) -> bool {
    uid == 0 && (mode & 0o022 == 0 || mode & 0o1000 != 0)
}

pub fn trusted_directory(uid: u32, mode: u32) -> (r: bool)
    ensures
        r == directory_trusted(uid, mode),
{
    uid == 0 && (mode & 0o022 == 0 || mode & 0o1000 != 0)
}

/// Every directory on the way is trusted.
pub open spec fn all_trusted(directories: Seq<(u32, u32)>) -> bool {
    forall|i: int|
        0 <= i < directories.len() ==> directory_trusted(
            (#[trigger] directories[i]).0,
            directories[i].1,
        )
}

/// The helper, by its real path, and the directories above it.
pub fn validate_helper(absolute: bool, facts: HelperFacts, directories: &[(u32, u32)]) -> (r: Result<
    (),
    Error,
>)
    ensures
        r is Ok <==> absolute && facts.trusted() && all_trusted(directories@),
        r matches Err(e) ==> e == if !absolute {
            Error::HelperRelative
        } else if !facts.trusted() {
            Error::HelperFile
        } else {
            Error::HelperDirectory
        },
{
    if !absolute {
        return Err(Error::HelperRelative);
    }
    if !(facts.file && facts.uid == 0 && facts.mode & 0o6022 == 0 && facts.mode & 0o111 != 0) {
        return Err(Error::HelperFile);
    }
    let mut i: usize = 0;
    while i < directories.len()
        invariant
            i <= directories@.len(),
            absolute && facts.trusted(),
            forall|j: int|
                0 <= j < i ==> directory_trusted(
                    (#[trigger] directories@[j]).0,
                    directories@[j].1,
                ),
        decreases directories@.len() - i,
    {
        let (uid, mode): (u32, u32) = directories[i];
        if !trusted_directory(uid, mode) {
            assert(!directory_trusted(directories@[i as int].0, directories@[i as int].1));
            return Err(Error::HelperDirectory);
        }
        i += 1;
    }
    Ok(())
}

/// How the helper ended.
pub enum Ended {
    /// What it printed, at most four bytes, and whether it succeeded.
    Exited { output: Vec<u8>, success: bool },
    TimedOut,
}

/// Only the exact answer from a helper that succeeded counts.
pub fn outcome(ended: &Ended) -> (r: Result<(), Error>)
    ensures
        r is Ok <==> (ended matches Ended::Exited { output, success } && output@ == encode_utf8(
            AGREED@,
        ) && *success),
        r matches Err(e) ==> e == if ended is TimedOut {
            Error::SystemAuthenticationTimeout
        } else {
            Error::SystemAuthentication
        },
{
    match ended {
        Ended::TimedOut => Err(Error::SystemAuthenticationTimeout),
        Ended::Exited { output, success } => if text::same_bytes(
            output.as_slice(),
            AGREED.as_bytes(),
        ) && *success {
            Ok(())
        } else {
            Err(Error::SystemAuthentication)
        },
    }
}

} // verus!
