//! The fixed client configuration and the builder that applies it.
use crate::engine::{
    build_context, disable_feature, load_default_roots, new_context_builder, restrict_ciphers,
};
use crate::error::Error;
use crate::handshake::{conclude, HandshakeError};
use crate::session::{checked_for, Session, VerifyMode};
use crate::stream::TlsStream;
use openssl::error::ErrorStack;
use openssl::ssl::{SslContext, SslContextBuilder};
use std::io::{Read, Write};
use vstd::prelude::*;

verus! {

/// The cipher list of the hardened policy: everything but export-grade,
/// unauthenticated, low-strength and RC4 suites, strongest first.
pub const HARDENED_CIPHER_LIST: &'static str = "ALL!EXPORT!EXPORT40!EXPORT56!aNULL!LOW!RC4@STRENGTH";

/// The protocol method a context is created with.
#[derive(Clone, Copy, Debug, PartialEq, Eq, Structural)]
pub enum ProtocolMethod {
    /// Negotiates the highest version both sides support, as client or server.
    Negotiated,
    /// Negotiates the highest version both sides support, as client only.
    NegotiatedClient,
}

/// A protocol feature that a policy can switch off.
#[derive(Clone, Copy, Debug, PartialEq, Eq, Structural)]
pub enum LegacyFeature {
    Sslv2,
    Sslv3,
    Compression,
}

/// The settings a client context is built with.
#[derive(Debug)]
pub struct TlsPolicy {
    pub method: ProtocolMethod,
    pub disabled: Vec<LegacyFeature>,
    pub default_roots: bool,
    pub cipher_list: String,
}

/// Context settings as plain values.
pub struct ContextSettings {
    /// The protocol method the context was created with.
    pub method: ProtocolMethod,
    /// The features switched off, in the order applied.
    pub disabled: Seq<LegacyFeature>,
    /// Whether the system's trust roots are loaded.
    pub default_roots: bool,
    /// The cipher list set, empty while none is.
    pub cipher_list: Seq<char>,
}

/// The features that the hardened policy switches off, in the order applied.
pub open spec fn hardened_disabled() -> Seq<LegacyFeature> {
    seq![LegacyFeature::Sslv2, LegacyFeature::Sslv3, LegacyFeature::Compression]
}

/// The hardened settings: a version-negotiating method, legacy versions and
/// compression off, the system's trust roots, and `HARDENED_CIPHER_LIST`.
pub open spec fn hardened_settings() -> ContextSettings {
    ContextSettings {
        method: ProtocolMethod::Negotiated,
        disabled: hardened_disabled(),
        default_roots: true,
        cipher_list: HARDENED_CIPHER_LIST@,
    }
}

/// The settings of a context just created with `method`, before any other
/// is applied.
pub open spec fn unconfigured(method: ProtocolMethod) -> ContextSettings {
    ContextSettings { method, disabled: Seq::empty(), default_roots: false, cipher_list: Seq::empty() }
}

impl TlsPolicy {
    /// The policy as plain values.
    pub open spec fn view(&self) -> ContextSettings {
        ContextSettings {
            method: self.method,
            disabled: self.disabled@,
            default_roots: self.default_roots,
            cipher_list: self.cipher_list@,
        }
    }

    pub open spec fn is_hardened(&self) -> bool {
        self.view() == hardened_settings()
    }

    /// The hardened policy.
    pub fn hardened() -> (r: TlsPolicy)
        ensures
            r.is_hardened(),
    {
        let mut disabled: Vec<LegacyFeature> = Vec::new();
        disabled.push(LegacyFeature::Sslv2);
        disabled.push(LegacyFeature::Sslv3);
        disabled.push(LegacyFeature::Compression);
        assert(disabled@ =~= hardened_disabled());
        TlsPolicy {
            method: ProtocolMethod::Negotiated,
            disabled,
            default_roots: true,
            cipher_list: HARDENED_CIPHER_LIST.to_owned(),
        }
    }
}

/// A context under construction, with the settings applied to it so far.
struct Configuring {
    builder: SslContextBuilder,
    settings: Ghost<ContextSettings>,
}

impl Configuring {
    fn new(method: ProtocolMethod) -> (r: Result<Configuring, ErrorStack>)
        ensures
            r matches Ok(c) ==> c.settings@ == unconfigured(method),
    {
        let builder = new_context_builder(method)?;
        Ok(Configuring { builder, settings: Ghost(unconfigured(method)) })
    }

    fn disable(&mut self, f: LegacyFeature)
        ensures
            final(self).settings@ == (ContextSettings {
                disabled: old(self).settings@.disabled.push(f),
                ..old(self).settings@
            }),
    {
        disable_feature(&mut self.builder, f);
        self.settings = Ghost(ContextSettings { disabled: self.settings@.disabled.push(f), ..self.settings@ });
    }

    fn load_default_roots(&mut self) -> (r: Result<(), ErrorStack>)
        ensures
            r is Ok ==> final(self).settings@ == (ContextSettings {
                default_roots: true,
                ..old(self).settings@
            }),
    {
        load_default_roots(&mut self.builder)?;
        self.settings = Ghost(ContextSettings { default_roots: true, ..self.settings@ });
        Ok(())
    }

    fn restrict_ciphers(&mut self, list: &str) -> (r: Result<(), ErrorStack>)
        requires
            !list@.contains('\0'),
        ensures
            r is Ok ==> final(self).settings@ == (ContextSettings {
                cipher_list: list@,
                ..old(self).settings@
            }),
    {
        restrict_ciphers(&mut self.builder, list)?;
        self.settings = Ghost(ContextSettings { cipher_list: list@, ..self.settings@ });
        Ok(())
    }
}

/// Applies a policy to a context created with its method: each feature
/// switched off, then the trust roots, then the cipher list.
fn configure(c: &mut Configuring, p: &TlsPolicy) -> (r: Result<(), ErrorStack>)
    requires
        old(c).settings@ == unconfigured(p.method),
        !p.cipher_list@.contains('\0'),
    ensures
        r is Ok ==> final(c).settings@ == p.view(),
{
    let mut i: usize = 0;
    assert(p.disabled@.subrange(0, 0) =~= Seq::<LegacyFeature>::empty());
    while i < p.disabled.len()
        invariant
            i <= p.disabled@.len(),
            c.settings@ == (ContextSettings {
                disabled: p.disabled@.subrange(0, i as int),
                ..unconfigured(p.method)
            }),
        decreases p.disabled@.len() - i,
    {
        c.disable(p.disabled[i]);
        assert(p.disabled@.subrange(0, i + 1) =~= p.disabled@.subrange(0, i as int).push(p.disabled@[i as int]));
        i = i + 1;
    }
    assert(p.disabled@.subrange(0, i as int) =~= p.disabled@);
    if p.default_roots {
        c.load_default_roots()?;
    }
    c.restrict_ciphers(p.cipher_list.as_str())
}

/// The hardened cipher list can be handed to the engine as a C string.
proof fn lemma_hardened_ciphers_have_no_nul()
    ensures
        !HARDENED_CIPHER_LIST@.contains('\0'),
{
    reveal_strlit("ALL!EXPORT!EXPORT40!EXPORT56!aNULL!LOW!RC4@STRENGTH");
}

/// A reusable client context, built once under the hardened policy.
pub struct ClientBuilder {
    ctx: SslContext,
    settings: Ghost<ContextSettings>,
    policy: TlsPolicy,
}

impl ClientBuilder {
    /// The settings the context was built with.
    pub closed spec fn applied(&self) -> ContextSettings {
        self.settings@
    }

    /// Built by `new`: its context carries the hardened policy.
    pub closed spec fn wf(&self) -> bool {
        &&& self.settings@ == hardened_settings()
        &&& self.policy.view() == self.settings@
    }

    /// Builds a context under the hardened policy; the engine's error where
    /// it refuses the configuration.
    pub fn new() -> (r: Result<ClientBuilder, Error>)
        ensures
            r matches Ok(b) ==> b.wf() && b.applied() == hardened_settings(),
    {
        let policy = TlsPolicy::hardened();
        proof {
            lemma_hardened_ciphers_have_no_nul();
        }
        let mut c = match Configuring::new(policy.method) {
            Ok(c) => c,
            Err(e) => return Err(Error::from_stack(e)),
        };
        match configure(&mut c, &policy) {
            Ok(()) => {},
            Err(e) => return Err(Error::from_stack(e)),
        }
        let Configuring { builder, settings } = c;
        Ok(ClientBuilder { ctx: build_context(builder), settings, policy })
    }

    /// The policy the context was built with.
    pub fn policy(&self) -> (r: &TlsPolicy)
        ensures
            self.wf() ==> r.view() == self.applied(),
    {
        &self.policy
    }

    /// Starts a handshake with `domain` over `stream`: the name is sent as
    /// Server Name Indication, the peer's certificate chain is verified, and
    /// the certificate must name the domain. A stream, or a handshake to
    /// resume, comes only from a session set up so; the outcome depends on
    /// this call's arguments alone, and the builder is left as it was.
    pub fn handshake<S: Read + Write>(&mut self, domain: &str, stream: S) -> (r: Result<
        TlsStream<S>,
        HandshakeError<S>,
    >)
        requires
            !domain@.contains('\0'),
        ensures
            *final(self) == *old(self),
            r matches Ok(t) ==> t.model() == checked_for(domain@),
            r matches Err(HandshakeError::Interrupted(m)) ==> m.model() == checked_for(domain@),
    {
        let mut session = match Session::new(&self.ctx) {
            Ok(s) => s,
            Err(e) => return Err(HandshakeError::from_stack(e)),
        };
        match session.send_server_name(domain) {
            Ok(()) => {},
            Err(e) => return Err(HandshakeError::from_stack(e)),
        }
        match session.expect_host(domain) {
            Ok(()) => {},
            Err(e) => return Err(HandshakeError::from_stack(e)),
        }
        session.set_verify_mode(VerifyMode::Peer);
        let (step, model) = session.connect(stream);
        conclude(step, model)
    }
}

/// Two builders made by `new` apply the same protocol method, cipher list
/// and protocol restrictions.
pub proof fn lemma_builders_agree(a: &ClientBuilder, b: &ClientBuilder)
    requires
        a.wf(),
        b.wf(),
    ensures
        a.applied() == b.applied(),
        a.applied() == hardened_settings(),
{
}

} // verus!
