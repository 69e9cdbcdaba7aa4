//! One login, as the host sees it. The steps come in a fixed order: the magic
//! bytes, the hello, the password proof, a touch of the security key where the
//! host requires one, and the credential. Each step takes the login as it stands
//! and gives it back one step further; a step that fails ends the login.
use crate::access::server::{Record, ServerState};
use crate::access::{self, Hello};
use crate::crypto;
use crate::error::Error;
use crate::protocol::Pairing;
use crate::security_key::Credential;
use crate::text;
use vstd::prelude::*;
use vstd::utf8::encode_utf8;

verus! {

/// What the challenge of a touch begins with.
pub const TOUCH_BINDING: &'static str = "teleport/u2f/login/v1";

#[allow(inconsistent_fields)]
pub enum Phase {
    /// The magic bytes are awaited.
    Magic,
    /// The hello is awaited.
    Hello,
    /// The first message of the password proof is awaited.
    Request { hello: Hello, context: Vec<u8> },
    /// The last message of the password proof is awaited.
    Proof { hello: Hello, context: Vec<u8>, generation: u64, key: Option<Credential> },
    /// The password is proved; a touch must be asked for.
    Challenge {
        hello: Hello,
        context: Vec<u8>,
        session: Vec<u8>,
        generation: u64,
        key: Credential,
    },
    /// A touch has been asked for.
    Touch { hello: Hello, context: Vec<u8>, session: Vec<u8>, generation: u64, hash: Vec<u8> },
    /// Everything is proved; the credential is due.
    Issue {
        hello: Hello,
        context: Vec<u8>,
        session: Vec<u8>,
        generation: u64,
        required: bool,
        touched: bool,
    },
    /// The credential is issued, and must be sealed.
    Seal { context: Vec<u8>, session: Vec<u8> },
}

pub struct Login {
    pub phase: Phase,
}

/// What the password proof works with.
pub struct Exchange {
    pub setup: Vec<u8>,
    /// The registration of the user, where the user name is right.
    pub registration: Option<Vec<u8>>,
}

/// The digest that the key signs. It binds this login, and with it the account and
/// the host, to a nonce that was never used.
pub open spec fn touch_hash_of(context: Seq<u8>, session: Seq<u8>, nonce: Seq<u8>) -> Seq<u8> {
    crypto::sha256_of(encode_utf8(TOUCH_BINDING@) + context + session + nonce)
}

impl Login {
    /// No login comes to its credential without the touch that its host required.
    pub open spec fn wf(self) -> bool {
        self.phase matches Phase::Issue { required, touched, .. } ==> (required ==> touched)
    }

    pub fn start() -> (r: Login)
        ensures
            r.phase is Magic,
            r.wf(),
    {
        Login { phase: Phase::Magic }
    }

    /// The first bytes of the connection.
    pub fn magic(self, bytes: &[u8]) -> (r: Result<Login, Error>)
        ensures
            r is Ok <==> self.phase is Magic && bytes@ == encode_utf8(access::MAGIC@),
            r matches Ok(login) ==> login.phase is Hello && login.wf(),
            r matches Err(e) ==> e == if self.phase is Magic {
                Error::AccessProtocol
            } else {
                Error::LoginOrder
            },
    {
        match self.phase {
            Phase::Magic => if text::same_bytes(bytes, access::MAGIC.as_bytes()) {
                Ok(Login { phase: Phase::Hello })
            } else {
                Err(Error::AccessProtocol)
            },
            _ => Err(Error::LoginOrder),
        }
    }

    /// Where a hello leads.
    pub open spec fn greeted(
        self,
        bytes: Seq<u8>,
        hello: Hello,
        fingerprint: Seq<char>,
        r: Result<Login, Error>,
    ) -> bool {
        &&& r is Ok <==> self.phase is Hello && hello.valid()
        &&& r matches Ok(login) ==> login.wf() && (login.phase matches Phase::Request {
            hello: h,
            context,
        } && h == hello && context@ == access::context_of(bytes, fingerprint))
        &&& r matches Err(e) ==> e == if !(self.phase is Hello) {
            Error::LoginOrder
        } else if !access::username_valid(hello.username@) {
            Error::Username
        } else {
            Error::DeviceName
        }
    }

    /// The hello, in its bytes and as it reads. The host answers with its
    /// fingerprint.
    pub fn hello(self, bytes: &[u8], hello: Hello, fingerprint: &str) -> (r: Result<Login, Error>)
        ensures
            self.greeted(bytes@, hello, fingerprint@, r),
    {
        match self.phase {
            Phase::Hello => {
                match access::validate_hello(&hello) {
                    Ok(()) => {},
                    Err(e) => return Err(e),
                }
                match access::login_context(bytes, fingerprint) {
                    Ok(context) => Ok(Login { phase: Phase::Request { hello, context } }),
                    Err(e) => Err(e),
                }
            },
            _ => Err(Error::LoginOrder),
        }
    }

    /// What the proof begins with.
    pub open spec fn exchanged(
        self,
        state: ServerState,
        r: Result<(Login, Exchange), Error>,
    ) -> bool {
        &&& r is Ok <==> self.phase is Request
        &&& r matches Ok((login, exchange)) ==> {
            &&& login.wf()
            &&& exchange.setup@ == state.record.setup@
            &&& exchange.registration is Some <==> state.record.account is Some
                && state.record.account->0.username@ == self.phase->Request_hello.username@
            &&& exchange.registration matches Some(registration) ==> registration@
                == state.record.account->0.registration@
            &&& login.phase matches Phase::Proof { hello, context, generation, key }
            &&& hello == self.phase->Request_hello
            &&& context == self.phase->Request_context
            &&& generation == state.record.generation
            &&& key is Some <==> state.record.u2f is Some
            &&& key matches Some(k) ==> k.same(state.record.u2f->0)
        }
        &&& r matches Err(e) ==> e == Error::LoginOrder
    }

    /// What the proof works with, as the record says at this moment. A user name
    /// that is not the account's goes on without a registration, so that it shows
    /// no sooner than a wrong password does.
    pub fn exchange(self, state: &ServerState) -> (r: Result<(Login, Exchange), Error>)
        ensures
            self.exchanged(*state, r),
    {
        match self.phase {
            Phase::Request { hello, context } => {
                let registration: Option<Vec<u8>> = match &state.record.account {
                    Some(account) => if text::same(
                        account.username.as_str(),
                        hello.username.as_str(),
                    ) {
                        Some(account.registration.clone())
                    } else {
                        None
                    },
                    None => None,
                };
                let key: Option<Credential> = match &state.record.u2f {
                    Some(key) => Some(key.clone()),
                    None => None,
                };
                let generation: u64 = state.record.generation;
                let exchange = Exchange { setup: state.record.setup.clone(), registration };
                Ok((Login { phase: Phase::Proof { hello, context, generation, key } }, exchange))
            },
            _ => Err(Error::LoginOrder),
        }
    }

    /// Where a password proof with this result leads.
    pub open spec fn proves(self, session: Option<Vec<u8>>, r: Result<Login, Error>) -> bool {
        &&& r is Ok <==> (self.phase matches Phase::Proof { hello, key, .. } && session is Some && (
        key is Some ==> hello.u2f))
        &&& r matches Ok(login) ==> {
            &&& login.wf()
            &&& self.phase->Proof_key is None ==> (login.phase matches Phase::Issue {
                hello,
                context,
                session: s,
                generation,
                required,
                touched,
            } && hello == self.phase->Proof_hello && context == self.phase->Proof_context && s
                == session->0 && generation == self.phase->Proof_generation && !required
                && !touched)
            &&& self.phase->Proof_key is Some ==> (login.phase matches Phase::Challenge {
                hello,
                context,
                session: s,
                generation,
                key,
            } && hello == self.phase->Proof_hello && context == self.phase->Proof_context && s
                == session->0 && generation == self.phase->Proof_generation && Some(key)
                == self.phase->Proof_key)
        }
        &&& r matches Err(e) ==> e == if !(self.phase is Proof) {
            Error::LoginOrder
        } else if session is None {
            Error::LoginFailed
        } else {
            Error::UpdateClient
        }
    }

    /// The password proof has ended, with a session key where it succeeded.
    pub fn proved(self, session: Option<Vec<u8>>) -> (r: Result<Login, Error>)
        ensures
            self.proves(session, r),
    {
        match self.phase {
            Phase::Proof { hello, context, generation, key } => {
                let session = match session {
                    Some(session) => session,
                    None => return Err(Error::LoginFailed),
                };
                match key {
                    None => Ok(
                        Login {
                            phase: Phase::Issue {
                                hello,
                                context,
                                session,
                                generation,
                                required: false,
                                touched: false,
                            },
                        },
                    ),
                    Some(key) => if hello.u2f {
                        Ok(
                            Login {
                                phase: Phase::Challenge {
                                    hello,
                                    context,
                                    session,
                                    generation,
                                    key,
                                },
                            },
                        )
                    } else {
                        Err(Error::UpdateClient)
                    },
                }
            },
            _ => Err(Error::LoginOrder),
        }
    }

    /// The request for a touch under this nonce.
    pub open spec fn challenged(
        self,
        nonce: Seq<u8>,
        r: Result<(Login, Credential), Error>,
    ) -> bool {
        &&& r is Ok <==> self.phase is Challenge
        &&& r matches Ok((login, key)) ==> {
            &&& login.wf()
            &&& key == self.phase->Challenge_key
            &&& login.phase matches Phase::Touch { hello, context, session, generation, hash }
            &&& hello == self.phase->Challenge_hello
            &&& context == self.phase->Challenge_context
            &&& session == self.phase->Challenge_session
            &&& generation == self.phase->Challenge_generation
            &&& hash@ == touch_hash_of(context@, session@, nonce)
        }
        &&& r matches Err(e) ==> e == Error::LoginOrder
    }

    /// Asks for a touch, under the given nonce. What comes back beside the login is
    /// the key to touch.
    pub fn challenge_with(self, nonce: [u8; 32]) -> (r: Result<(Login, Credential), Error>)
        ensures
            self.challenged(nonce@, r),
    {
        match self.phase {
            Phase::Challenge { hello, context, session, generation, key } => {
                let mut binding: Vec<u8> = Vec::new();
                binding.extend_from_slice(TOUCH_BINDING.as_bytes());
                binding.extend_from_slice(context.as_slice());
                binding.extend_from_slice(session.as_slice());
                binding.extend_from_slice(nonce.as_slice());
                assert(binding@ =~= encode_utf8(TOUCH_BINDING@) + context@ + session@ + nonce@);
                let hash = crypto::sha256(binding.as_slice());
                Ok((Login { phase: Phase::Touch { hello, context, session, generation, hash } }, key))
            },
            _ => Err(Error::LoginOrder),
        }
    }

    /// Asks for a touch, under a fresh nonce.
    pub fn challenge(self) -> (r: Result<(Login, Credential), Error>)
        ensures
            r is Ok <==> self.phase is Challenge,
            r matches Ok((login, key)) ==> {
                &&& login.wf()
                &&& key == self.phase->Challenge_key
                &&& login.phase matches Phase::Touch { hello, context, session, generation, hash }
                &&& hello == self.phase->Challenge_hello
                &&& context == self.phase->Challenge_context
                &&& session == self.phase->Challenge_session
                &&& generation == self.phase->Challenge_generation
                &&& exists|nonce: Seq<u8>|
                    nonce.len() == 32 && hash@ == #[trigger] touch_hash_of(
                        context@,
                        session@,
                        nonce,
                    )
            },
            r matches Err(e) ==> e == Error::LoginOrder,
    {
        self.challenge_with(crypto::random_32())
    }

    /// The packet that asks for a touch, around the encoded challenge.
    pub fn seal_challenge(&self, challenge: &[u8]) -> (r: Result<Vec<u8>, Error>)
        ensures
            r is Ok <==> self.phase is Touch && challenge@.len() <= crypto::MAX_SEALED,
            r matches Ok(packet) ==> {
                let magic = encode_utf8(access::TOUCH_MAGIC@);
                &&& crate::wire::starts_with(packet@, magic)
                &&& access::opened_packet(
                    self.phase->Touch_session@,
                    encode_utf8(access::TOUCH_REQUEST@),
                    self.phase->Touch_context@,
                    packet@.skip(magic.len() as int),
                ) == Some(challenge@)
            },
            r matches Err(e) ==> e == if self.phase is Touch {
                Error::TouchEncryption
            } else {
                Error::LoginOrder
            },
    {
        match &self.phase {
            Phase::Touch { context, session, .. } => {
                match access::seal_touch(
                    session.as_slice(),
                    access::TOUCH_REQUEST.as_bytes(),
                    context.as_slice(),
                    challenge,
                ) {
                    Ok(sealed) => {
                        let mut packet: Vec<u8> = Vec::new();
                        packet.extend_from_slice(access::TOUCH_MAGIC.as_bytes());
                        packet.extend_from_slice(sealed.as_slice());
                        proof {
                            let magic = encode_utf8(access::TOUCH_MAGIC@);
                            assert(packet@ =~= magic + sealed@);
                            assert(packet@.take(magic.len() as int) =~= magic);
                            assert(packet@.skip(magic.len() as int) =~= sealed@);
                        }
                        Ok(packet)
                    },
                    Err(e) => Err(e),
                }
            },
            _ => Err(Error::LoginOrder),
        }
    }

    /// What a client sent in answer to the request for a touch.
    pub fn open_touch(&self, packet: &[u8]) -> (r: Result<Vec<u8>, Error>)
        ensures
            !(self.phase is Touch) ==> r == Err::<Vec<u8>, Error>(Error::LoginOrder),
            self.phase is Touch ==> {
                let opened = access::opened_packet(
                    self.phase->Touch_session@,
                    encode_utf8(access::TOUCH_REPLY@),
                    self.phase->Touch_context@,
                    packet@,
                );
                &&& r is Ok <==> opened is Some
                &&& r matches Ok(data) ==> opened == Some(data@)
                &&& r matches Err(e) ==> e == if packet@.len() < 28 {
                    Error::TouchMessage
                } else {
                    Error::TouchAuthentication
                }
            },
    {
        match &self.phase {
            Phase::Touch { context, session, .. } => access::open_touch(
                session.as_slice(),
                access::TOUCH_REPLY.as_bytes(),
                context.as_slice(),
                packet,
            ),
            _ => Err(Error::LoginOrder),
        }
    }

    /// Where a touch with this result leads, and what becomes of the record.
    pub open spec fn touches(
        self,
        before: ServerState,
        counter: Option<u32>,
        after: ServerState,
        r: Result<Login, Error>,
    ) -> bool {
        &&& r is Ok <==> self.phase is Touch && counter is Some && before.touch_acceptable(
            self.phase->Touch_generation,
            counter->0,
        )
        &&& r matches Ok(login) ==> {
            &&& login.wf()
            &&& after == (ServerState {
                record: Record { u2f_counter: counter->0, ..before.record },
                ..before
            })
            &&& login.phase matches Phase::Issue {
                hello,
                context,
                session,
                generation,
                required,
                touched,
            }
            &&& hello == self.phase->Touch_hello
            &&& context == self.phase->Touch_context
            &&& session == self.phase->Touch_session
            &&& generation == self.phase->Touch_generation
            &&& required
            &&& touched
        }
        &&& r matches Err(e) ==> after == before && e == if !(self.phase is Touch) {
            Error::LoginOrder
        } else if before.record.generation != self.phase->Touch_generation {
            Error::SettingsChanged
        } else if before.record.u2f is None {
            Error::KeySettingsChanged
        } else if counter is None {
            Error::TouchAuthentication
        } else {
            Error::CounterStalled
        }
    }

    /// The assertion was verified to carry `counter`; `None` stands for one that was
    /// not verified.
    pub fn touched(self, state: &mut ServerState, counter: Option<u32>) -> (r: Result<Login, Error>)
        requires
            old(state).wf(),
        ensures
            final(state).wf(),
            self.touches(*old(state), counter, *final(state), r),
    {
        match self.phase {
            Phase::Touch { hello, context, session, generation, .. } => {
                match state.accept_touch(generation, counter) {
                    Ok(()) => Ok(
                        Login {
                            phase: Phase::Issue {
                                hello,
                                context,
                                session,
                                generation,
                                required: true,
                                touched: true,
                            },
                        },
                    ),
                    Err(e) => Err(e),
                }
            },
            _ => Err(Error::LoginOrder),
        }
    }

    /// What the credential is, and what becomes of the record.
    pub open spec fn issues(
        self,
        before: ServerState,
        after: ServerState,
        r: Result<(Login, Pairing), Error>,
    ) -> bool {
        &&& r is Ok <==> self.phase is Issue && before.may_issue(self.phase->Issue_generation)
            && before.record.devices@.len() < crate::access::server::MAX_DEVICES
        &&& r matches Ok((login, pairing)) ==> {
            &&& login.wf()
            &&& text::token_form(pairing.token@)
            &&& pairing.fingerprint@ == before.legacy.fingerprint@
            &&& exists|id: Seq<char>, created: u64| #[trigger]
                after.added_device(
                    &before,
                    self.phase->Issue_hello.device_name@,
                    crate::access::server::FROM_PASSWORD@,
                    pairing.token@,
                    id,
                    created,
                )
            &&& login.phase matches Phase::Seal { context, session }
            &&& context == self.phase->Issue_context
            &&& session == self.phase->Issue_session
        }
        &&& r matches Err(e) ==> after == before && e == if !(self.phase is Issue) {
            Error::LoginOrder
        } else if !before.may_issue(self.phase->Issue_generation) {
            Error::LoginFailed
        } else {
            Error::DeviceLimit
        }
    }

    /// Issues the credential.
    pub fn issue(self, state: &mut ServerState) -> (r: Result<(Login, Pairing), Error>)
        requires
            self.wf(),
            old(state).wf(),
        ensures
            final(state).wf(),
            self.issues(*old(state), *final(state), r),
    {
        match self.phase {
            Phase::Issue { hello, context, session, generation, .. } => {
                match state.issue(generation, hello.device_name.as_str()) {
                    Ok(pairing) => Ok((Login { phase: Phase::Seal { context, session } }, pairing)),
                    Err(e) => Err(e),
                }
            },
            _ => Err(Error::LoginOrder),
        }
    }

    /// The packet with the encoded credential.
    pub fn seal(&self, payload: &[u8]) -> (r: Result<Vec<u8>, Error>)
        ensures
            r is Ok <==> self.phase is Seal && payload@.len() <= crypto::MAX_SEALED,
            r matches Ok(packet) ==> access::opened_packet(
                self.phase->Seal_session@,
                encode_utf8(access::DEVICE_CREDENTIAL@),
                self.phase->Seal_context@,
                packet@,
            ) == Some(payload@),
            r matches Err(e) ==> e == if self.phase is Seal {
                Error::CredentialEncryption
            } else {
                Error::LoginOrder
            },
    {
        match &self.phase {
            Phase::Seal { context, session } => access::seal_credential(
                session.as_slice(),
                context.as_slice(),
                payload,
            ),
            _ => Err(Error::LoginOrder),
        }
    }
}

} // verus!
