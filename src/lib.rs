//! A small client-side TLS layer over OpenSSL: a builder with a fixed,
//! hardened configuration, a handshake that may be interrupted and resumed,
//! and the established stream.
mod engine;
mod error;
mod handshake;
mod policy;
mod session;
mod stream;

pub use error::{non_empty_description, Error, FALLBACK_DESCRIPTION};
pub use handshake::{lemma_failure_is_final, outcome_status, HandshakeError, HandshakeStatus, MidHandshakeTlsStream};
pub use policy::{
    hardened_disabled, hardened_settings, lemma_builders_agree, unconfigured, ClientBuilder, ContextSettings,
    LegacyFeature, ProtocolMethod, TlsPolicy, HARDENED_CIPHER_LIST,
};
pub use session::{checked_for, fresh_session, SessionModel, VerifyMode};
pub use stream::{TlsStream, TlsStreamExt};
