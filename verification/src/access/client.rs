//! One login, as the client sees it. The steps come in a fixed order: the hello, the
//! host's fingerprint, the password proof, a touch of the security key where the
//! host asks for one, and the credential. A step that fails ends the login.
use crate::access::{self, Hello, ReplyKind};
use crate::crypto;
use crate::error::Error;
use crate::protocol::{fingerprint_form, Pairing};
use crate::text;
use crate::wire;
use vstd::prelude::*;
use vstd::utf8::{encode_utf8, valid_utf8};

verus! {

#[allow(inconsistent_fields)]
pub enum Phase {
    /// The fingerprint of the host is awaited.
    Fingerprint { hello: Vec<u8> },
    /// The password is being proved, bound to this context.
    Proof { fingerprint: String, context: Vec<u8> },
    /// The host's answer to the proof is awaited, or to the touch.
    Reply { fingerprint: String, context: Vec<u8>, session: Vec<u8>, touched: bool },
    /// A touch was asked for.
    Touch { fingerprint: String, context: Vec<u8>, session: Vec<u8> },
    /// The credential was opened.
    Opened { fingerprint: String },
}

pub struct ClientLogin {
    pub phase: Phase,
}

/// What the host's answer holds, in its encoding.
pub enum Answer {
    /// A challenge to be touched for.
    Challenge(Vec<u8>),
    Credential(Vec<u8>),
}

/// What a packet from the host holds for a client in this session.
pub open spec fn answer_of(
    session: Seq<u8>,
    context: Seq<u8>,
    touched: bool,
    packet: Seq<u8>,
) -> Option<Seq<u8>> {
    let magic = encode_utf8(access::TOUCH_MAGIC@);
    if asks_for_touch(touched, packet) {
        access::opened_packet(
            session,
            encode_utf8(access::TOUCH_REQUEST@),
            context,
            packet.skip(magic.len() as int),
        )
    } else {
        access::opened_packet(session, encode_utf8(access::DEVICE_CREDENTIAL@), context, packet)
    }
}

/// The packet asks for a touch. It can do so once.
pub open spec fn asks_for_touch(touched: bool, packet: Seq<u8>) -> bool {
    !touched && wire::starts_with(packet, encode_utf8(access::TOUCH_MAGIC@))
}

impl ClientLogin {
    /// A login with this hello, in its bytes and as it reads.
    pub fn start(hello: &Hello, bytes: Vec<u8>, password: &str) -> (r: Result<ClientLogin, Error>)
        ensures
            r is Ok <==> hello.valid() && access::login_password_valid(password@),
            r matches Ok(login) ==> login.phase == (Phase::Fingerprint { hello: bytes }),
            r matches Err(e) ==> e == if !access::username_valid(hello.username@) {
                Error::Username
            } else if !access::device_name_valid(hello.device_name@) {
                Error::DeviceName
            } else {
                Error::LoginPassword
            },
    {
        match access::check_login(hello, password) {
            Ok(()) => Ok(ClientLogin { phase: Phase::Fingerprint { hello: bytes } }),
            Err(e) => Err(e),
        }
    }

    /// What is sent first.
    pub fn opening(&self) -> (r: Result<Vec<u8>, Error>)
        ensures
            r is Ok <==> (self.phase matches Phase::Fingerprint { hello } && 1 <= hello@.len()
                <= access::MAX_PACKET),
            r matches Ok(bytes) ==> bytes@ == encode_utf8(access::MAGIC@) + access::packet_of(
                self.phase->Fingerprint_hello@,
            ),
            r matches Err(e) ==> e == if self.phase is Fingerprint {
                Error::PacketSize
            } else {
                Error::LoginOrder
            },
    {
        match &self.phase {
            Phase::Fingerprint { hello } => match access::frame_packet(hello.as_slice()) {
                Ok(packet) => {
                    let mut out: Vec<u8> = Vec::new();
                    out.extend_from_slice(access::MAGIC.as_bytes());
                    out.extend_from_slice(packet.as_slice());
                    assert(out@ =~= encode_utf8(access::MAGIC@) + access::packet_of(hello@));
                    Ok(out)
                },
                Err(e) => Err(e),
            },
            _ => Err(Error::LoginOrder),
        }
    }

    /// The host has named its fingerprint. Whatever it is, the password proof and
    /// all that follows is bound to it.
    pub fn fingerprint(self, packet: &[u8]) -> (r: Result<ClientLogin, Error>)
        ensures
            r is Ok <==> self.phase is Fingerprint && valid_utf8(packet@) && exists|s: Seq<char>|
                encode_utf8(s) == packet@ && #[trigger] fingerprint_form(s),
            r matches Ok(login) ==> (login.phase matches Phase::Proof { fingerprint, context }
                && encode_utf8(fingerprint@) == packet@ && fingerprint_form(fingerprint@)
                && context@ == access::context_of(
                self.phase->Fingerprint_hello@,
                fingerprint@,
            )),
            r matches Err(e) ==> e == if !(self.phase is Fingerprint) {
                Error::LoginOrder
            } else if !valid_utf8(packet@) {
                Error::FingerprintText
            } else {
                Error::Fingerprint
            },
    {
        match self.phase {
            Phase::Fingerprint { hello } => match access::read_fingerprint(packet) {
                Ok(fingerprint) => match access::login_context(
                    hello.as_slice(),
                    fingerprint.as_str(),
                ) {
                    Ok(context) => Ok(ClientLogin { phase: Phase::Proof { fingerprint, context } }),
                    Err(e) => Err(e),
                },
                Err(e) => Err(e),
            },
            _ => Err(Error::LoginOrder),
        }
    }

    /// Where a password proof with this result leads.
    pub open spec fn proves(self, session: Option<Vec<u8>>, r: Result<ClientLogin, Error>) -> bool {
        &&& r is Ok <==> self.phase is Proof && session is Some
        &&& r matches Ok(login) ==> login.phase == (Phase::Reply {
            fingerprint: self.phase->Proof_fingerprint,
            context: self.phase->Proof_context,
            session: session->0,
            touched: false,
        })
        &&& r matches Err(e) ==> e == if self.phase is Proof {
            Error::LoginRejected
        } else {
            Error::LoginOrder
        }
    }

    /// The password proof has ended, with a session key where it succeeded.
    pub fn proved(self, session: Option<Vec<u8>>) -> (r: Result<ClientLogin, Error>)
        ensures
            self.proves(session, r),
    {
        match self.phase {
            Phase::Proof { fingerprint, context } => match session {
                Some(session) => Ok(
                    ClientLogin {
                        phase: Phase::Reply { fingerprint, context, session, touched: false },
                    },
                ),
                None => Err(Error::LoginRejected),
            },
            _ => Err(Error::LoginOrder),
        }
    }

    /// What the host's answer holds, and where it leads.
    pub open spec fn replied(
        self,
        packet: Seq<u8>,
        r: Result<(ClientLogin, Answer), Error>,
    ) -> bool {
        &&& r is Ok <==> (self.phase matches Phase::Reply { context, session, touched, .. }
            && answer_of(session@, context@, touched, packet) is Some)
        &&& r matches Ok((login, answer)) ==> {
            let held = answer_of(
                self.phase->Reply_session@,
                self.phase->Reply_context@,
                self.phase->touched,
                packet,
            );
            if asks_for_touch(self.phase->touched, packet) {
                &&& login.phase == (Phase::Touch {
                    fingerprint: self.phase->Reply_fingerprint,
                    context: self.phase->Reply_context,
                    session: self.phase->Reply_session,
                })
                &&& answer matches Answer::Challenge(data) && held == Some(data@)
            } else {
                &&& login.phase == (Phase::Opened {
                    fingerprint: self.phase->Reply_fingerprint,
                })
                &&& answer matches Answer::Credential(data) && held == Some(data@)
            }
        }
        &&& r matches Err(e) ==> e == if !(self.phase is Reply) {
            Error::LoginOrder
        } else if asks_for_touch(self.phase->touched, packet) {
            if packet.len() < encode_utf8(access::TOUCH_MAGIC@).len() + 28 {
                Error::TouchMessage
            } else {
                Error::TouchAuthentication
            }
        } else if packet.len() < 28 {
            Error::CredentialResponse
        } else {
            Error::CredentialAuthentication
        }
    }

    /// The host has answered.
    pub fn reply(self, packet: &[u8]) -> (r: Result<(ClientLogin, Answer), Error>)
        ensures
            self.replied(packet@, r),
    {
        match self.phase {
            Phase::Reply { fingerprint, context, session, touched } => {
                let touch = match access::reply_kind(packet) {
                    ReplyKind::Touch => !touched,
                    ReplyKind::Credential => false,
                };
                if touch {
                    match access::open_challenge(session.as_slice(), context.as_slice(), packet) {
                        Ok(challenge) => Ok(
                            (
                                ClientLogin {
                                    phase: Phase::Touch { fingerprint, context, session },
                                },
                                Answer::Challenge(challenge),
                            ),
                        ),
                        Err(e) => Err(e),
                    }
                } else {
                    match access::open_credential(session.as_slice(), context.as_slice(), packet) {
                        Ok(credential) => Ok(
                            (
                                ClientLogin { phase: Phase::Opened { fingerprint } },
                                Answer::Credential(credential),
                            ),
                        ),
                        Err(e) => Err(e),
                    }
                }
            },
            _ => Err(Error::LoginOrder),
        }
    }

    /// Where a touch leads, and what is sent for it.
    pub open spec fn touches(
        self,
        assertion: Seq<u8>,
        r: Result<(ClientLogin, Vec<u8>), Error>,
    ) -> bool {
        &&& r is Ok <==> self.phase is Touch && assertion.len() <= crypto::MAX_SEALED
        &&& r matches Ok((login, packet)) ==> {
            &&& login.phase == (Phase::Reply {
                fingerprint: self.phase->Touch_fingerprint,
                context: self.phase->Touch_context,
                session: self.phase->Touch_session,
                touched: true,
            })
            &&& access::opened_packet(
                self.phase->Touch_session@,
                encode_utf8(access::TOUCH_REPLY@),
                self.phase->Touch_context@,
                packet@,
            ) == Some(assertion)
        }
        &&& r matches Err(e) ==> e == if self.phase is Touch {
            Error::TouchEncryption
        } else {
            Error::LoginOrder
        }
    }

    /// The key was touched. What comes back beside the login is the packet with the
    /// encoded assertion.
    pub fn touched(self, assertion: &[u8]) -> (r: Result<(ClientLogin, Vec<u8>), Error>)
        ensures
            self.touches(assertion@, r),
    {
        match self.phase {
            Phase::Touch { fingerprint, context, session } => {
                match access::seal_touch(
                    session.as_slice(),
                    access::TOUCH_REPLY.as_bytes(),
                    context.as_slice(),
                    assertion,
                ) {
                    Ok(packet) => Ok(
                        (
                            ClientLogin {
                                phase: Phase::Reply { fingerprint, context, session, touched: true },
                            },
                            packet,
                        ),
                    ),
                    Err(e) => Err(e),
                }
            },
            _ => Err(Error::LoginOrder),
        }
    }

    /// Whether a credential is taken.
    pub open spec fn accepts(self, pairing: Pairing, r: Result<(), Error>) -> bool {
        &&& r is Ok <==> (self.phase matches Phase::Opened { fingerprint } && pairing@.valid()
            && pairing.fingerprint@ == fingerprint@)
        &&& r matches Err(e) ==> e == if !(self.phase is Opened) {
            Error::LoginOrder
        } else if !text::token_form(pairing.token@) {
            Error::PairingToken
        } else if !fingerprint_form(pairing.fingerprint@) {
            Error::Fingerprint
        } else {
            Error::HostIdentity
        }
    }

    /// The credential reads like this. It must be for the host that the proof was
    /// bound to.
    pub fn accept(self, pairing: &Pairing) -> (r: Result<(), Error>)
        ensures
            self.accepts(*pairing, r),
    {
        match self.phase {
            Phase::Opened { fingerprint } => access::accept_credential(
                pairing,
                fingerprint.as_str(),
            ),
            _ => Err(Error::LoginOrder),
        }
    }
}

/// A host cannot ask for a second touch: after the first, whatever it sends is
/// opened as a credential.
pub proof fn one_touch_for_a_login(packet: Seq<u8>)
    ensures
        !asks_for_touch(true, packet),
{
}

} // verus!
