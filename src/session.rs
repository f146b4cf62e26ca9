//! A per-connection session before its handshake, with a model of what it has
//! been told to send and to check.
use crate::engine::{connect, expect_host, new_session, set_server_name, set_verify_mode};
use crate::handshake::Step;
use openssl::error::ErrorStack;
use openssl::ssl::{Ssl, SslContext};
use std::io::{Read, Write};
use vstd::prelude::*;

verus! {

/// How the peer's certificate is treated.
#[derive(Clone, Copy, Debug, PartialEq, Eq, Structural)]
pub enum VerifyMode {
    /// Not checked.
    Off,
    /// The chain is verified and the handshake fails when it is rejected.
    Peer,
}

/// What a session has been set up with.
pub struct SessionModel {
    /// The name sent as Server Name Indication.
    pub server_name: Option<Seq<char>>,
    /// The host that the peer's certificate must name.
    pub expected_host: Option<Seq<char>>,
    /// The verification mode set, if one was.
    pub verify_mode: Option<VerifyMode>,
}

/// A session that has been told nothing yet.
pub open spec fn fresh_session() -> SessionModel {
    SessionModel { server_name: None, expected_host: None, verify_mode: None }
}

/// A session for `domain`: the name is sent, the peer is verified, and its
/// certificate must name the domain.
pub open spec fn checked_for(domain: Seq<char>) -> SessionModel {
    SessionModel { server_name: Some(domain), expected_host: Some(domain), verify_mode: Some(VerifyMode::Peer) }
}

/// The engine's session, with the settings that have been applied to it.
pub(crate) struct Session {
    ssl: Ssl,
    model: Ghost<SessionModel>,
}

impl Session {
    pub(crate) closed spec fn model(&self) -> SessionModel {
        self.model@
    }

    /// A fresh session derived from `ctx`.
    pub(crate) fn new(ctx: &SslContext) -> (r: Result<Session, ErrorStack>)
        ensures
            r matches Ok(s) ==> s.model() == fresh_session(),
    {
        let ssl = new_session(ctx)?;
        Ok(Session { ssl, model: Ghost(fresh_session()) })
    }

    /// Sends `domain` as Server Name Indication.
    pub(crate) fn send_server_name(&mut self, domain: &str) -> (r: Result<(), ErrorStack>)
        requires
            !domain@.contains('\0'),
        ensures
            r is Ok ==> final(self).model() == (SessionModel {
                server_name: Some(domain@),
                ..old(self).model()
            }),
    {
        set_server_name(&mut self.ssl, domain)?;
        self.model = Ghost(SessionModel { server_name: Some(domain@), ..self.model@ });
        Ok(())
    }

    /// Requires the peer's certificate to name `domain`.
    pub(crate) fn expect_host(&mut self, domain: &str) -> (r: Result<(), ErrorStack>)
        ensures
            r is Ok ==> final(self).model() == (SessionModel {
                expected_host: Some(domain@),
                ..old(self).model()
            }),
    {
        expect_host(&mut self.ssl, domain)?;
        self.model = Ghost(SessionModel { expected_host: Some(domain@), ..self.model@ });
        Ok(())
    }

    /// Sets how the peer's certificate is treated.
    pub(crate) fn set_verify_mode(&mut self, mode: VerifyMode)
        ensures
            final(self).model() == (SessionModel { verify_mode: Some(mode), ..old(self).model() }),
    {
        set_verify_mode(&mut self.ssl, mode);
        self.model = Ghost(SessionModel { verify_mode: Some(mode), ..self.model@ });
    }

    /// Starts the handshake over `stream`; the model goes along with the
    /// outcome.
    pub(crate) fn connect<S: Read + Write>(self, stream: S) -> (r: (Step<S>, Ghost<SessionModel>))
        ensures
            r.1@ == self.model(),
    {
        (connect(self.ssl, stream), self.model)
    }
}

} // verus!
