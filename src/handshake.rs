//! A handshake that may stop for want of I/O, and the three ways one step of
//! it can end.
use crate::engine::{interruption_error, mid_transport, mid_transport_mut, resume};
use crate::error::Error;
use crate::session::SessionModel;
use crate::stream::TlsStream;
use openssl::error::ErrorStack;
use openssl::ssl::{MidHandshakeSslStream, SslStream};
use std::io::{Read, Write};
use vstd::prelude::*;

verus! {

/// Where a handshake stands after a step.
#[derive(Clone, Copy, Debug, PartialEq, Eq, Structural)]
pub enum HandshakeStatus {
    Established,
    Interrupted,
    Failed,
}

/// What one step of the engine's handshake came to.
#[verifier::reject_recursive_types(S)]
pub(crate) enum Step<S> {
    /// The session is established.
    Established(SslStream<S>),
    /// The transport would block; the step can be tried again.
    WouldBlock(MidHandshakeSslStream<S>),
    /// The handshake failed, for instance on a certificate that does not
    /// verify or does not name the host.
    Failed(MidHandshakeSslStream<S>),
    /// The session could not be set up.
    SetupFailed(ErrorStack),
}

impl<S> Step<S> {
    pub(crate) open spec fn status(&self) -> HandshakeStatus {
        match self {
            Step::Established(_) => HandshakeStatus::Established,
            Step::WouldBlock(_) => HandshakeStatus::Interrupted,
            Step::Failed(_) => HandshakeStatus::Failed,
            Step::SetupFailed(_) => HandshakeStatus::Failed,
        }
    }
}

/// A handshake that stopped because the transport would block.
#[verifier::reject_recursive_types(S)]
pub struct MidHandshakeTlsStream<S> {
    inner: MidHandshakeSslStream<S>,
    model: Ghost<SessionModel>,
}

impl<S> MidHandshakeTlsStream<S> {
    /// The engine's paused handshake.
    pub closed spec fn engine(&self) -> MidHandshakeSslStream<S> {
        self.inner
    }

    /// What the session was set up with.
    pub closed spec fn model(&self) -> SessionModel {
        self.model@
    }

    /// The transport.
    pub fn get_ref(&self) -> (r: &S) {
        mid_transport(&self.inner)
    }

    /// The transport.
    pub fn get_mut(&mut self) -> (r: &mut S) {
        mid_transport_mut(&mut self.inner)
    }
}

impl<S: Read + Write> MidHandshakeTlsStream<S> {
    /// Takes the handshake up again where it stopped. The session keeps the
    /// settings it was started with: a stream, or a handshake to resume
    /// again, checks the peer as this one does.
    pub fn handshake(self) -> (r: Result<TlsStream<S>, HandshakeError<S>>)
        ensures
            r matches Ok(t) ==> t.model() == self.model(),
            r matches Err(HandshakeError::Interrupted(m)) ==> m.model() == self.model(),
    {
        conclude(resume(self.inner), self.model)
    }
}

/// Why a handshake did not yield a stream.
#[verifier::reject_recursive_types(S)]
pub enum HandshakeError<S> {
    /// The handshake failed for good.
    Failure(Error),
    /// The handshake waits on the transport; resume it when that is ready.
    Interrupted(MidHandshakeTlsStream<S>),
}

impl<S> HandshakeError<S> {
    pub open spec fn status(&self) -> HandshakeStatus {
        match self {
            HandshakeError::Failure(_) => HandshakeStatus::Failed,
            HandshakeError::Interrupted(_) => HandshakeStatus::Interrupted,
        }
    }

    /// A failure from a stack of low-level engine errors.
    pub fn from_stack(e: ErrorStack) -> (r: HandshakeError<S>)
        ensures
            r.status() == HandshakeStatus::Failed,
    {
        HandshakeError::Failure(Error::from_stack(e))
    }
}

impl<S> From<ErrorStack> for HandshakeError<S> {
    /// Same as `HandshakeError::from_stack`.
    fn from(e: ErrorStack) -> (r: HandshakeError<S>)
        ensures
            r.status() == HandshakeStatus::Failed,
    {
        HandshakeError::from_stack(e)
    }
}

impl<S> vstd::std_specs::convert::FromSpecImpl<ErrorStack> for HandshakeError<S> {
    open spec fn obeys_from_spec() -> bool {
        false
    }

    open spec fn from_spec(v: ErrorStack) -> HandshakeError<S> {
        arbitrary()
    }
}

/// Where a handshake stands, given what an attempt returned.
pub open spec fn outcome_status<S>(r: &Result<TlsStream<S>, HandshakeError<S>>) -> HandshakeStatus {
    match r {
        Ok(_) => HandshakeStatus::Established,
        Err(e) => e.status(),
    }
}

/// An attempt whose status is failed is a `Failure`: it holds neither a
/// stream nor a handshake that could be resumed.
pub proof fn lemma_failure_is_final<S>(r: &Result<TlsStream<S>, HandshakeError<S>>)
    requires
        outcome_status(r) == HandshakeStatus::Failed,
    ensures
        r matches Err(HandshakeError::Failure(_)),
{
}

/// Turns the outcome of an engine step into what a handshake returns: the
/// stream once established, a handshake to resume where the transport would
/// block, and a failure otherwise. The session's settings go along.
pub(crate) fn conclude<S>(step: Step<S>, model: Ghost<SessionModel>) -> (r: Result<TlsStream<S>, HandshakeError<S>>)
    ensures
        outcome_status(&r) == step.status(),
        r matches Ok(t) ==> t.model() == model@,
        r matches Err(HandshakeError::Interrupted(m)) ==> m.model() == model@,
        step matches Step::Established(s) ==> r is Ok && r->Ok_0.engine() == s,
        step matches Step::WouldBlock(m) ==> (r is Err && (r->Err_0 matches
            HandshakeError::Interrupted(h) && h.engine() == m)),
{
    match step {
        Step::Established(s) => Ok(TlsStream::new(s, model)),
        Step::WouldBlock(m) => Err(HandshakeError::Interrupted(MidHandshakeTlsStream { inner: m, model })),
        Step::Failed(m) => Err(HandshakeError::Failure(Error::from_ssl(interruption_error(m)))),
        Step::SetupFailed(e) => Err(HandshakeError::from_stack(e)),
    }
}

} // verus!
