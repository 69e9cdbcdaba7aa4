//! The persistent identity of a host: certificate, key and token. Existing
//! credentials are never replaced silently.
use crate::crypto;
use crate::error::Error;
use crate::protocol::Pairing;
use crate::text;
use base64::Engine;
use vstd::prelude::*;

verus! {

/// The label of a private key in a PEM file, and that of a certificate.
pub const PRIVATE_KEY: &'static str = "PRIVATE KEY";

pub const CERTIFICATE: &'static str = "CERTIFICATE";

/// Where the files of an identity are, and its token.
pub struct Identity {
    pub certificate: String,
    pub key: String,
    pub pairing: String,
    pub token: String,
}

#[verifier::ext_equal]
pub struct IdentityView {
    pub certificate: Seq<char>,
    pub key: Seq<char>,
    pub pairing: Seq<char>,
    pub token: Seq<char>,
}

impl View for Identity {
    type V = IdentityView;

    open spec fn view(&self) -> IdentityView {
        IdentityView {
            certificate: self.certificate@,
            key: self.key@,
            pairing: self.pairing@,
            token: self.token@,
        }
    }
}

/// The identity with this token; its files have their names.
pub open spec fn identity_with(token: Seq<char>) -> IdentityView {
    IdentityView {
        certificate: CERTIFICATE_FILE@,
        key: KEY_FILE@,
        pairing: PAIRING_FILE@,
        token,
    }
}

/// What the file system says of a file, and who asks.
#[derive(Clone, Copy, PartialEq, Eq, Structural, Debug)]
pub struct FileFacts {
    pub owner: u32,
    pub user: u32,
    pub regular: bool,
    pub directory: bool,
    pub mode: u32,
}

impl FileFacts {
    pub open spec fn owned(self) -> bool {
        self.owner == self.user
    }

    /// Nobody but the owner may read, write or execute.
    pub open spec fn private(self) -> bool {
        self.mode & 0o077 == 0
    }
}

pub fn private_file(facts: FileFacts) -> (r: Result<(), Error>)
    ensures
        r is Ok <==> facts.owned() && facts.regular && facts.private(),
        r == Err::<(), Error>(Error::IdentityOwner) <==> !facts.owned(),
        r == Err::<(), Error>(Error::IdentityPrivate) <==> facts.owned() && !(facts.regular
            && facts.private()),
{
    if facts.owner != facts.user {
        return Err(Error::IdentityOwner);
    }
    if !(facts.regular && facts.mode & 0o077 == 0) {
        return Err(Error::IdentityPrivate);
    }
    Ok(())
}

pub fn private_directory(facts: FileFacts) -> (r: Result<(), Error>)
    ensures
        r is Ok <==> facts.owned() && facts.directory && facts.private(),
        r == Err::<(), Error>(Error::DirectoryOwner) <==> !facts.owned(),
        r == Err::<(), Error>(Error::DirectoryPrivate) <==> facts.owned() && !(facts.directory
            && facts.private()),
{
    if facts.owner != facts.user {
        return Err(Error::DirectoryOwner);
    }
    if !(facts.directory && facts.mode & 0o077 == 0) {
        return Err(Error::DirectoryPrivate);
    }
    Ok(())
}

/// What to do about the files that were found.
#[derive(Clone, Copy, PartialEq, Eq, Structural, Debug)]
pub enum Plan {
    /// Nothing is there: make an identity.
    Create,
    /// Everything is there: use it.
    Reuse,
}

/// An identity is complete or absent. A partial one is refused, and so is a
/// pairing file that has lost its identity.
pub open spec fn plan_of(certificate: bool, key: bool, token: bool, pairing: bool) -> Result<
    Plan,
    Error,
> {
    if certificate && key && token {
        Ok(Plan::Reuse)
    } else if certificate || key || token {
        Err(Error::IncompleteIdentity)
    } else if pairing {
        Err(Error::OrphanPairing)
    } else {
        Ok(Plan::Create)
    }
}

pub fn plan(certificate: bool, key: bool, token: bool, pairing: bool) -> (r: Result<Plan, Error>)
    ensures
        r == plan_of(certificate, key, token, pairing),
{
    if certificate && key && token {
        Ok(Plan::Reuse)
    } else if certificate || key || token {
        Err(Error::IncompleteIdentity)
    } else if pairing {
        Err(Error::OrphanPairing)
    } else {
        Ok(Plan::Create)
    }
}

/// The stored token, held against the pairing file where there is one.
pub fn check_token(token: &str, pairing: Option<&Pairing>) -> (r: Result<(), Error>)
    ensures
        r is Ok <==> text::token_form(token@) && (pairing is Some ==> pairing->0.token@ == token@),
        r == Err::<(), Error>(Error::PersistentToken) <==> !text::token_form(token@),
        r == Err::<(), Error>(Error::TokenMismatch) <==> text::token_form(token@)
            && pairing is Some && pairing->0.token@ != token@,
{
    if !text::is_token_form(token) {
        return Err(Error::PersistentToken);
    }
    if let Some(saved) = pairing {
        if !text::same(saved.token.as_str(), token) {
            return Err(Error::TokenMismatch);
        }
    }
    Ok(())
}

/// A fresh token, as hexadecimal digits of the given random bytes.
pub fn token_from(bytes: &[u8; 32]) -> (r: String)
    ensures
        r@ == text::hex(bytes@),
        text::token_form(r@),
{
    let r = text::format_hex(bytes.as_slice());
    proof {
        text::hex_is_hexadecimal(bytes@);
    }
    r
}

/// A fresh random token.
pub fn token() -> (r: String)
    ensures
        exists|bytes: Seq<u8>| bytes.len() == 32 && r@ == #[trigger] text::hex(bytes),
        text::token_form(r@),
{
    let bytes = crypto::random_32();
    assert(bytes@.len() == 32);
    token_from(&bytes)
}

/// The standard base64 alphabet with padding.
pub uninterp spec fn base64_of(data: Seq<u8>) -> Seq<char>;

/// `base64::engine::general_purpose::STANDARD.encode`: a function of the data.
#[verifier::external_body]
fn base64_encode(data: &[u8]) -> (r: String)
    ensures
        r@ == base64_of(data@),
{
    base64::engine::general_purpose::STANDARD.encode(data)
}

/// The text in lines of sixty-four characters, each line ended.
pub open spec fn wrapped(chars: Seq<char>) -> Seq<char>
    decreases chars.len(),
{
    if chars.len() == 0 {
        Seq::empty()
    } else if chars.len() <= 64 {
        chars.push('\n')
    } else {
        chars.take(64).push('\n') + wrapped(chars.skip(64))
    }
}

/// The text of a PEM file around a base64 text.
pub open spec fn pem_text(label: Seq<char>, encoded: Seq<char>) -> Seq<char> {
    "-----BEGIN "@ + label + "-----\n"@ + wrapped(encoded) + "-----END "@ + label + "-----\n"@
}

fn push_wrapped(out: &mut String, encoded: &str)
    ensures
        final(out)@ == old(out)@ + wrapped(encoded@),
{
    let ghost before = out@;
    let mut column: usize = 0;
    // Where the current line began.
    let ghost mut start: int = 0;
    let ghost mut done: Seq<char> = Seq::empty();
    assert(encoded@.skip(0) =~= encoded@);
    assert(wrapped(encoded@) =~= done + wrapped(encoded@.skip(0)));
    for c in it: encoded.chars()
        invariant
            it.seq() == encoded@,
            0 <= start,
            start + column == it.index(),
            column < 64,
            it.index() <= encoded@.len(),
            out@ == before + done + encoded@.subrange(start, it.index() as int),
            wrapped(encoded@) == done + wrapped(encoded@.skip(start)),
    {
        let ghost shown = out@;
        out.push(c);
        column += 1;
        proof {
            assert(encoded@.subrange(start, it.index() + 1) =~= encoded@.subrange(
                start,
                it.index() as int,
            ).push(c));
            assert(out@ =~= before + done + encoded@.subrange(start, it.index() + 1));
        }
        if column == 64 {
            out.push('\n');
            column = 0;
            proof {
                let rest = encoded@.skip(start);
                assert(rest.take(64) =~= encoded@.subrange(start, start + 64));
                assert(rest.skip(64) =~= encoded@.skip(start + 64));
                if rest.len() == 64 {
                    assert(rest.take(64) =~= rest);
                    assert(wrapped(rest.skip(64)) =~= Seq::<char>::empty());
                }
                assert(wrapped(rest) =~= rest.take(64).push('\n') + wrapped(rest.skip(64)));
                let line = rest.take(64).push('\n');
                assert(out@ =~= before + (done + line));
                assert(wrapped(encoded@) =~= (done + line) + wrapped(encoded@.skip(start + 64)));
                done = done + line;
                start = start + 64;
                assert(encoded@.subrange(start, start) =~= Seq::<char>::empty());
                assert(out@ =~= before + done + encoded@.subrange(start, start));
            }
        }
    }
    proof {
        assert(encoded@.skip(start) =~= encoded@.subrange(start, encoded@.len() as int));
    }
    if column > 0 {
        out.push('\n');
        assert(out@ =~= before + wrapped(encoded@));
    } else {
        assert(out@ =~= before + wrapped(encoded@));
    }
}

/// A PEM file with the base64 text of some DER.
pub fn pem_from(label: &str, encoded: &str) -> (r: String)
    ensures
        r@ == pem_text(label@, encoded@),
{
    let mut result = String::new();
    result.push_str("-----BEGIN ");
    result.push_str(label);
    result.push_str("-----\n");
    push_wrapped(&mut result, encoded);
    result.push_str("-----END ");
    result.push_str(label);
    result.push_str("-----\n");
    assert(result@ =~= pem_text(label@, encoded@));
    result
}

/// A PEM file with some DER.
pub fn pem(label: &str, der: &[u8]) -> (r: String)
    ensures
        r@ == pem_text(label@, base64_of(der@)),
{
    let encoded = base64_encode(der);
    pem_from(label, encoded.as_str())
}

/// The name that a host's certificate is for.
pub const CERTIFICATE_NAME: &'static str = "teleport.local";

/// `certificate` is a certificate for `name` and for the public half of `key`, and
/// `key` signed it; both are DER.
pub uninterp spec fn certified(name: Seq<char>, key: Seq<u8>, certificate: Seq<u8>) -> bool;

/// `rcgen::generate_simple_self_signed`: the DER of a fresh key, and that of a
/// certificate for it and for `name`. Which key comes depends on chance, and whether
/// one does is not said.
#[verifier::external_body]
fn self_signed(name: &str) -> (r: Option<(Vec<u8>, Vec<u8>)>)
    ensures
        r matches Some((key, certificate)) ==> certified(name@, key@, certificate@),
{
    let certified = rcgen::generate_simple_self_signed(vec![name.to_string()]).ok()?;
    Some((certified.signing_key.serialize_der(), certified.cert.der().to_vec()))
}

/// The contents of the files of a new identity.
pub struct NewIdentity {
    pub key: String,
    pub certificate: String,
    pub token: String,
}

impl NewIdentity {
    /// The key file holds this key, and the certificate file this certificate.
    pub open spec fn holds(self, key: Seq<u8>, certificate: Seq<u8>) -> bool {
        &&& self.key@ == pem_text(PRIVATE_KEY@, base64_of(key))
        &&& self.certificate@ == pem_text(CERTIFICATE@, base64_of(certificate))
    }

    /// It could have been made just now: a key, a certificate for it and for the
    /// host's name, and a token.
    pub open spec fn is_new(self) -> bool {
        &&& exists|key: Seq<u8>, certificate: Seq<u8>| #[trigger]
            certified(CERTIFICATE_NAME@, key, certificate) && self.holds(key, certificate)
        &&& exists|bytes: Seq<u8>|
            bytes.len() == 32 && self.token@ == #[trigger] text::hex(bytes)
        &&& text::token_form(self.token@)
    }
}

/// The name to ask for a certificate for.
pub fn certificate_name() -> (r: &'static str)
    ensures
        r@ == "teleport.local"@,
{
    CERTIFICATE_NAME
}

/// The identity with this key, this certificate and this token.
pub fn identity_from(key: &[u8], certificate: &[u8], token: String) -> (r: NewIdentity)
    ensures
        r.key@ == pem_text(PRIVATE_KEY@, base64_of(key@)),
        r.certificate@ == pem_text(CERTIFICATE@, base64_of(certificate@)),
        r.token == token,
{
    NewIdentity { key: pem(PRIVATE_KEY, key), certificate: pem(CERTIFICATE, certificate), token }
}

/// The identity with the key and the certificate that were made, if they were.
pub fn create_with(made: Option<(Vec<u8>, Vec<u8>)>, token: String) -> (r: Result<
    NewIdentity,
    Error,
>)
    ensures
        r is Ok <==> made is Some,
        r matches Ok(identity) ==> identity.token == token && (made matches Some(
            (key, certificate),
        ) && identity.holds(key@, certificate@)),
        r matches Err(e) ==> e == Error::Certificate,
{
    match made {
        Some((key, certificate)) => Ok(
            identity_from(key.as_slice(), certificate.as_slice(), token),
        ),
        None => Err(Error::Certificate),
    }
}

/// A new identity: a key, a certificate for it and for the host's name, and a token.
/// Which they are is a matter of chance.
pub fn create() -> (r: Result<NewIdentity, Error>)
    ensures
        r matches Ok(made) ==> made.is_new(),
        r matches Err(e) ==> e == Error::Certificate,
{
    let made = self_signed(certificate_name());
    let ghost pair = made;
    let r = create_with(made, token());
    proof {
        if let Some((key, certificate)) = pair {
            assert(certified(CERTIFICATE_NAME@, key@, certificate@));
        }
    }
    r
}

// ------------------------------------------------------------- the directory

/// The names of the files of an identity, and that of the pairing file beside them.
pub const CERTIFICATE_FILE: &'static str = "certificate.pem";

pub const KEY_FILE: &'static str = "key.pem";

pub const TOKEN_FILE: &'static str = "token";

pub const PAIRING_FILE: &'static str = "pairing.json";

/// A file that is to be written where there is none.
pub struct NewFile {
    pub name: &'static str,
    pub text: String,
}

/// The files of a new identity, in the order in which they are written.
pub fn files(made: NewIdentity) -> (r: Vec<NewFile>)
    ensures
        r@.len() == 3,
        r@[0].name@ == KEY_FILE@ && r@[0].text == made.key,
        r@[1].name@ == CERTIFICATE_FILE@ && r@[1].text == made.certificate,
        r@[2].name@ == TOKEN_FILE@ && r@[2].text == made.token,
{
    let mut r: Vec<NewFile> = Vec::new();
    r.push(NewFile { name: KEY_FILE, text: made.key });
    r.push(NewFile { name: CERTIFICATE_FILE, text: made.certificate });
    r.push(NewFile { name: TOKEN_FILE, text: made.token });
    r
}

/// The files under their names, with their contents.
pub open spec fn named(files: Seq<NewFile>) -> Seq<(Seq<char>, Seq<char>)> {
    files.map_values(|file: NewFile| (file.name@, file.text@))
}

/// What is written for a new identity.
pub open spec fn written(made: NewIdentity) -> Seq<(Seq<char>, Seq<char>)> {
    seq![
        (KEY_FILE@, made.key@),
        (CERTIFICATE_FILE@, made.certificate@),
        (TOKEN_FILE@, made.token@),
    ]
}

/// Why a directory is not taken for the home of an identity, if it is not.
pub open spec fn directory_refused(facts: FileFacts) -> Option<Error> {
    if !facts.owned() {
        Some(Error::DirectoryOwner)
    } else if !(facts.directory && facts.private()) {
        Some(Error::DirectoryPrivate)
    } else {
        None
    }
}

/// Why a file is not taken for one of an identity, if it is not.
pub open spec fn file_refused(facts: FileFacts) -> Option<Error> {
    if !facts.owned() {
        Some(Error::IdentityOwner)
    } else if !(facts.regular && facts.private()) {
        Some(Error::IdentityPrivate)
    } else {
        None
    }
}

/// What is to be written into a directory in which these files were found, with
/// `made` at hand should there be no identity.
pub open spec fn prepared(
    directory: FileFacts,
    certificate: bool,
    key: bool,
    token: bool,
    pairing: bool,
    made: Option<NewIdentity>,
) -> Result<Seq<(Seq<char>, Seq<char>)>, Error> {
    match directory_refused(directory) {
        Some(e) => Err(e),
        None => match plan_of(certificate, key, token, pairing) {
            Err(e) => Err(e),
            Ok(Plan::Reuse) => Ok(Seq::empty()),
            Ok(Plan::Create) => match made {
                Some(made) => Ok(written(made)),
                None => Err(Error::Certificate),
            },
        },
    }
}

pub fn prepare_with(
    directory: FileFacts,
    certificate: bool,
    key: bool,
    token: bool,
    pairing: bool,
    made: Option<NewIdentity>,
) -> (r: Result<Vec<NewFile>, Error>)
    ensures
        match r {
            Ok(files) => prepared(directory, certificate, key, token, pairing, made) == Ok::<
                Seq<(Seq<char>, Seq<char>)>,
                Error,
            >(named(files@)),
            Err(e) => prepared(directory, certificate, key, token, pairing, made) == Err::<
                Seq<(Seq<char>, Seq<char>)>,
                Error,
            >(e),
        },
{
    match private_directory(directory) {
        Ok(()) => {},
        Err(e) => return Err(e),
    }
    match plan(certificate, key, token, pairing) {
        Err(e) => Err(e),
        Ok(Plan::Reuse) => {
            let none: Vec<NewFile> = Vec::new();
            assert(named(none@) =~= Seq::empty());
            Ok(none)
        },
        Ok(Plan::Create) => match made {
            Some(made) => {
                let ghost all = written(made);
                let out = files(made);
                assert(named(out@) =~= all);
                Ok(out)
            },
            None => Err(Error::Certificate),
        },
    }
}

/// What is to be written into a directory before the identity in it is read. An
/// identity is made only where there is none; which one is a matter of chance.
pub fn prepare(directory: FileFacts, certificate: bool, key: bool, token: bool, pairing: bool) -> (r:
    Result<Vec<NewFile>, Error>)
    ensures
        exists|made: Option<NewIdentity>|
            {
                &&& match r {
                    Ok(files) => #[trigger] prepared(
                        directory,
                        certificate,
                        key,
                        token,
                        pairing,
                        made,
                    ) == Ok::<Seq<(Seq<char>, Seq<char>)>, Error>(named(files@)),
                    Err(e) => prepared(directory, certificate, key, token, pairing, made) == Err::<
                        Seq<(Seq<char>, Seq<char>)>,
                        Error,
                    >(e),
                }
                &&& made matches Some(identity) ==> identity.is_new()
            },
{
    let wanted = match plan(certificate, key, token, pairing) {
        Ok(Plan::Create) => private_directory(directory).is_ok(),
        _ => false,
    };
    let made = if wanted {
        match create() {
            Ok(made) => Some(made),
            Err(_) => None,
        }
    } else {
        None
    };
    let ghost at_hand = made;
    let r = prepare_with(directory, certificate, key, token, pairing, made);
    assert(match r {
        Ok(files) => prepared(directory, certificate, key, token, pairing, at_hand) == Ok::<
            Seq<(Seq<char>, Seq<char>)>,
            Error,
        >(named(files@)),
        Err(e) => prepared(directory, certificate, key, token, pairing, at_hand) == Err::<
            Seq<(Seq<char>, Seq<char>)>,
            Error,
        >(e),
    });
    r
}

/// A pairing file beside an identity: what the file system says of it, and the token
/// in it, if it can be read.
pub struct SavedPairing {
    pub facts: FileFacts,
    pub pairing: Option<Pairing>,
}

/// Why the files of an identity are refused, if they are, once they are all there:
/// what the file system says of them, the text of the token file, and the pairing
/// file where there is one.
pub open spec fn identity_refused(
    certificate: FileFacts,
    key: FileFacts,
    token_file: FileFacts,
    token: Seq<char>,
    pairing: Option<(FileFacts, Option<Seq<char>>)>,
) -> Option<Error> {
    if file_refused(certificate) is Some {
        file_refused(certificate)
    } else if file_refused(key) is Some {
        file_refused(key)
    } else if file_refused(token_file) is Some {
        file_refused(token_file)
    } else if !text::token_form(token) {
        Some(Error::PersistentToken)
    } else {
        match pairing {
            None => None,
            Some((facts, saved)) => if file_refused(facts) is Some {
                file_refused(facts)
            } else {
                match saved {
                    None => Some(Error::PairingUnreadable),
                    Some(saved) => if saved == token {
                        None
                    } else {
                        Some(Error::TokenMismatch)
                    },
                }
            },
        }
    }
}

/// The token that a pairing file holds, with what is said of the file.
pub open spec fn saved_token(pairing: Option<SavedPairing>) -> Option<
    (FileFacts, Option<Seq<char>>),
> {
    match pairing {
        None => None,
        Some(saved) => Some(
            (
                saved.facts,
                match saved.pairing {
                    Some(pairing) => Some(pairing.token@),
                    None => None,
                },
            ),
        ),
    }
}

/// The identity whose files are these. They are named within their directory.
pub fn accept(
    certificate: FileFacts,
    key: FileFacts,
    token_file: FileFacts,
    token: String,
    pairing: Option<SavedPairing>,
) -> (r: Result<Identity, Error>)
    ensures
        match r {
            Ok(identity) => {
                &&& identity_refused(certificate, key, token_file, token@, saved_token(pairing))
                    is None
                &&& identity@ == identity_with(token@)
            },
            Err(e) => identity_refused(certificate, key, token_file, token@, saved_token(pairing))
                == Some(e),
        },
{
    match private_file(certificate) {
        Ok(()) => {},
        Err(e) => return Err(e),
    }
    match private_file(key) {
        Ok(()) => {},
        Err(e) => return Err(e),
    }
    match private_file(token_file) {
        Ok(()) => {},
        Err(e) => return Err(e),
    }
    match check_token(token.as_str(), None) {
        Ok(()) => {},
        Err(e) => return Err(e),
    }
    if let Some(saved) = &pairing {
        match private_file(saved.facts) {
            Ok(()) => {},
            Err(e) => return Err(e),
        }
        match &saved.pairing {
            None => return Err(Error::PairingUnreadable),
            Some(found) => match check_token(token.as_str(), Some(found)) {
                Ok(()) => {},
                Err(e) => return Err(e),
            },
        }
    }
    Ok(
        Identity {
            certificate: CERTIFICATE_FILE.to_string(),
            key: KEY_FILE.to_string(),
            pairing: PAIRING_FILE.to_string(),
            token,
        },
    )
}

// ---------------------------------------------------- opening, and opening again

/// A file: what the file system says of it, and its text.
pub struct Entry {
    pub facts: FileFacts,
    pub text: Seq<char>,
}

/// A directory for an identity: what the file system says of it, its files, and the
/// pairing file where there is one.
#[verifier::ext_equal]
pub struct Directory {
    pub facts: FileFacts,
    pub files: Map<Seq<char>, Entry>,
    pub pairing: Option<(FileFacts, Option<Seq<char>>)>,
}

/// The files once these were written, in their order, as files of which the file
/// system says `fresh`.
pub open spec fn with_files(
    files: Map<Seq<char>, Entry>,
    list: Seq<(Seq<char>, Seq<char>)>,
    fresh: FileFacts,
) -> Map<Seq<char>, Entry>
    decreases list.len(),
{
    if list.len() == 0 {
        files
    } else {
        with_files(
            files.insert(list[0].0, Entry { facts: fresh, text: list[0].1 }),
            list.skip(1),
            fresh,
        )
    }
}

impl Directory {
    /// What [`prepare_with`] wants written here.
    pub open spec fn wanted(self, made: Option<NewIdentity>) -> Result<
        Seq<(Seq<char>, Seq<char>)>,
        Error,
    > {
        prepared(
            self.facts,
            self.files.contains_key(CERTIFICATE_FILE@),
            self.files.contains_key(KEY_FILE@),
            self.files.contains_key(TOKEN_FILE@),
            self.pairing is Some,
            made,
        )
    }

    /// The directory once that was written.
    pub open spec fn after(self, made: Option<NewIdentity>, fresh: FileFacts) -> Directory {
        match self.wanted(made) {
            Ok(list) => Directory { files: with_files(self.files, list, fresh), ..self },
            Err(_) => self,
        }
    }

    /// What opening the identity in this directory gives: what is wanted is written,
    /// and [`accept`] judges all that is there then.
    pub open spec fn opening(self, made: Option<NewIdentity>, fresh: FileFacts) -> Result<
        IdentityView,
        Error,
    > {
        let then_there = self.after(made, fresh).files;
        match self.wanted(made) {
            Err(e) => Err(e),
            Ok(_) => match identity_refused(
                then_there[CERTIFICATE_FILE@].facts,
                then_there[KEY_FILE@].facts,
                then_there[TOKEN_FILE@].facts,
                then_there[TOKEN_FILE@].text,
                self.pairing,
            ) {
                Some(e) => Err(e),
                None => Ok(identity_with(then_there[TOKEN_FILE@].text)),
            },
        }
    }
}

proof fn file_names_differ()
    ensures
        KEY_FILE@ != CERTIFICATE_FILE@,
        KEY_FILE@ != TOKEN_FILE@,
        CERTIFICATE_FILE@ != TOKEN_FILE@,
{
    reveal_strlit("certificate.pem");
    reveal_strlit("key.pem");
    reveal_strlit("token");
    assert(CERTIFICATE_FILE@.len() == 15);
    assert(KEY_FILE@.len() == 7);
    assert(TOKEN_FILE@.len() == 5);
}

proof fn three_files(files: Map<Seq<char>, Entry>, made: NewIdentity, fresh: FileFacts)
    ensures
        with_files(files, written(made), fresh) == files.insert(
            KEY_FILE@,
            Entry { facts: fresh, text: made.key@ },
        ).insert(CERTIFICATE_FILE@, Entry { facts: fresh, text: made.certificate@ }).insert(
            TOKEN_FILE@,
            Entry { facts: fresh, text: made.token@ },
        ),
{
    reveal_with_fuel(with_files, 4);
    let list = written(made);
    assert(list.skip(1)[0] == list[1]);
    assert(list.skip(1).skip(1)[0] == list[2]);
    assert(list.skip(1).skip(1).skip(1).len() == 0);
}

/// An identity that was opened is opened again as it is, with the same token and the
/// same files, and every file of the directory keeps its contents, whatever would be
/// made in its place.
pub proof fn an_opened_identity_stays(
    directory: Directory,
    made: Option<NewIdentity>,
    fresh: FileFacts,
    other: Option<NewIdentity>,
    fresh_then: FileFacts,
)
    requires
        directory.opening(made, fresh) is Ok,
    ensures
        directory.after(made, fresh).opening(other, fresh_then) == directory.opening(made, fresh),
        directory.after(made, fresh).after(other, fresh_then) == directory.after(made, fresh),
{
    file_names_differ();
    if let Some(identity) = made {
        three_files(directory.files, identity, fresh);
    }
    let then_there = directory.after(made, fresh);
    assert(then_there.wanted(other) == Ok::<Seq<(Seq<char>, Seq<char>)>, Error>(Seq::empty()));
    assert(then_there.after(other, fresh_then) =~= then_there);
}

/// Where one or two of an identity's three files are missing, opening it is an error,
/// and nothing is written.
pub proof fn partial_identities_are_refused(
    directory: Directory,
    made: Option<NewIdentity>,
    fresh: FileFacts,
)
    requires
        directory.files.contains_key(CERTIFICATE_FILE@) || directory.files.contains_key(KEY_FILE@)
            || directory.files.contains_key(TOKEN_FILE@),
        !(directory.files.contains_key(CERTIFICATE_FILE@) && directory.files.contains_key(KEY_FILE@)
            && directory.files.contains_key(TOKEN_FILE@)),
    ensures
        directory.opening(made, fresh) is Err,
        directory_refused(directory.facts) is None ==> directory.opening(made, fresh) == Err::<
            IdentityView,
            Error,
        >(Error::IncompleteIdentity),
        directory.after(made, fresh) == directory,
{
}

/// A file that is there is never replaced, whatever would be made.
pub proof fn existing_files_are_kept(
    directory: Directory,
    made: Option<NewIdentity>,
    fresh: FileFacts,
    name: Seq<char>,
)
    requires
        directory.files.contains_key(name),
    ensures
        directory.after(made, fresh).files.contains_key(name),
        directory.after(made, fresh).files[name] == directory.files[name],
        directory.after(made, fresh).pairing == directory.pairing,
{
    if let Some(identity) = made {
        three_files(directory.files, identity, fresh);
    }
}

/// A new identity is opened with the token that was made, as long as its files come
/// out private.
pub proof fn a_new_identity_opens(directory: Directory, made: NewIdentity, fresh: FileFacts)
    requires
        directory_refused(directory.facts) is None,
        !directory.files.contains_key(CERTIFICATE_FILE@),
        !directory.files.contains_key(KEY_FILE@),
        !directory.files.contains_key(TOKEN_FILE@),
        directory.pairing is None,
        file_refused(fresh) is None,
        made.is_new(),
    ensures
        directory.opening(Some(made), fresh) == Ok::<IdentityView, Error>(
            identity_with(made.token@),
        ),
{
    file_names_differ();
    three_files(directory.files, made, fresh);
}

} // verus!
