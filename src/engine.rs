//! The calls into the OpenSSL bindings that the library makes, each behind a
//! contract that the bindings' source supports.
use crate::handshake::Step;
use crate::policy::{LegacyFeature, ProtocolMethod};
use crate::session::VerifyMode;
use openssl::error::ErrorStack;
use openssl::ssl::Error as SslError;
use openssl::ssl::{
    HandshakeError, MidHandshakeSslStream, Ssl, SslContext, SslContextBuilder, SslMethod,
    SslOptions, SslStream, SslVerifyMode,
};
use std::io::{Read, Write};
use vstd::prelude::*;

verus! {

#[verifier::external_type_specification]
#[verifier::external_body]
pub struct ExErrorStack(ErrorStack);

#[verifier::external_type_specification]
#[verifier::external_body]
pub struct ExSslError(SslError);

#[verifier::external_type_specification]
#[verifier::external_body]
pub struct ExSslContext(SslContext);

#[verifier::external_type_specification]
#[verifier::external_body]
pub struct ExSslContextBuilder(SslContextBuilder);

#[verifier::external_type_specification]
#[verifier::external_body]
pub struct ExSsl(Ssl);

#[verifier::external_type_specification]
#[verifier::external_body]
#[verifier::reject_recursive_types(S)]
pub struct ExSslStream<S>(SslStream<S>);

#[verifier::external_type_specification]
#[verifier::external_body]
#[verifier::reject_recursive_types(S)]
pub struct ExMidHandshakeSslStream<S>(MidHandshakeSslStream<S>);

#[verifier::external_type_specification]
#[verifier::external_body]
pub struct ExIoError(std::io::Error);

/// Relies on `SslContext::builder`: a fresh context builder for the given
/// method (`SslMethod::tls` or `SslMethod::tls_client`, both of which
/// negotiate the highest protocol version the two sides share).
#[verifier::external_body]
pub(crate) fn new_context_builder(m: ProtocolMethod) -> (r: Result<SslContextBuilder, ErrorStack>) {
    let method = match m {
        ProtocolMethod::Negotiated => SslMethod::tls(),
        ProtocolMethod::NegotiatedClient => SslMethod::tls_client(),
    };
    SslContext::builder(method)
}

/// Relies on `SslContextBuilder::set_options`: switches on the option that
/// turns the given legacy feature off.
#[verifier::external_body]
pub(crate) fn disable_feature(b: &mut SslContextBuilder, f: LegacyFeature) {
    let option = match f {
        LegacyFeature::Sslv2 => SslOptions::NO_SSLV2,
        LegacyFeature::Sslv3 => SslOptions::NO_SSLV3,
        LegacyFeature::Compression => SslOptions::NO_COMPRESSION,
    };
    b.set_options(option);
}

/// Relies on `SslContextBuilder::set_default_verify_paths`: loads the
/// system's default trust roots.
#[verifier::external_body]
pub(crate) fn load_default_roots(b: &mut SslContextBuilder) -> (r: Result<(), ErrorStack>) {
    b.set_default_verify_paths()
}

/// Relies on `SslContextBuilder::set_cipher_list`: restricts the ciphers
/// offered to those the list names. The list is copied into a C string, which
/// panics on a NUL character.
#[verifier::external_body]
pub(crate) fn restrict_ciphers(b: &mut SslContextBuilder, list: &str) -> (r: Result<(), ErrorStack>)
    requires
        !list@.contains('\0'),
{
    b.set_cipher_list(list)
}

/// Relies on `SslContextBuilder::build`: freezes the configuration.
#[verifier::external_body]
pub(crate) fn build_context(b: SslContextBuilder) -> (r: SslContext) {
    b.build()
}

/// Relies on `Ssl::new`: a per-connection session derived from the context.
#[verifier::external_body]
pub(crate) fn new_session(ctx: &SslContext) -> (r: Result<Ssl, ErrorStack>) {
    Ssl::new(ctx)
}

/// Relies on `SslRef::set_hostname`: the name sent as Server Name Indication.
/// The name is copied into a C string, which panics on a NUL character.
#[verifier::external_body]
pub(crate) fn set_server_name(ssl: &mut Ssl, domain: &str) -> (r: Result<(), ErrorStack>)
    requires
        !domain@.contains('\0'),
{
    ssl.set_hostname(domain)
}

/// Relies on `X509VerifyParamRef::set_host`, reached through
/// `SslRef::param_mut`: the peer certificate must name this host. OpenSSL
/// itself matches the name during chain verification, so the library needs
/// no verification callback of its own for it.
#[verifier::external_body]
pub(crate) fn expect_host(ssl: &mut Ssl, domain: &str) -> (r: Result<(), ErrorStack>) {
    ssl.param_mut().set_host(domain)
}

/// Relies on `SslRef::set_verify`: with `SslVerifyMode::PEER` the peer's
/// certificate chain, host name included (see `expect_host`), is verified
/// and the handshake fails when it is rejected; with `SslVerifyMode::NONE`
/// it is not checked.
#[verifier::external_body]
pub(crate) fn set_verify_mode(ssl: &mut Ssl, mode: VerifyMode) {
    let mode = match mode {
        VerifyMode::Off => SslVerifyMode::NONE,
        VerifyMode::Peer => SslVerifyMode::PEER,
    };
    ssl.set_verify(mode)
}

/// Relies on `Ssl::connect`, whose three outcomes are told apart here.
#[verifier::external_body]
pub(crate) fn connect<S: Read + Write>(ssl: Ssl, stream: S) -> (r: Step<S>) {
    match ssl.connect(stream) {
        Ok(s) => Step::Established(s),
        Err(HandshakeError::WouldBlock(m)) => Step::WouldBlock(m),
        Err(HandshakeError::Failure(m)) => Step::Failed(m),
        Err(HandshakeError::SetupFailure(e)) => Step::SetupFailed(e),
    }
}

/// Relies on `MidHandshakeSslStream::handshake`, whose three outcomes are
/// told apart here.
#[verifier::external_body]
pub(crate) fn resume<S: Read + Write>(m: MidHandshakeSslStream<S>) -> (r: Step<S>) {
    match m.handshake() {
        Ok(s) => Step::Established(s),
        Err(HandshakeError::WouldBlock(m)) => Step::WouldBlock(m),
        Err(HandshakeError::Failure(m)) => Step::Failed(m),
        Err(HandshakeError::SetupFailure(e)) => Step::SetupFailed(e),
    }
}

/// Relies on `MidHandshakeSslStream::into_error`: the error that stopped the
/// handshake.
#[verifier::external_body]
pub(crate) fn interruption_error<S>(m: MidHandshakeSslStream<S>) -> (r: SslError) {
    m.into_error()
}

/// Relies on `From<ErrorStack> for ssl::Error`: a stack seen as a protocol
/// error.
#[verifier::external_body]
pub(crate) fn stack_error(e: ErrorStack) -> (r: SslError) {
    SslError::from(e)
}

/// Relies on the `Display` impl of `ssl::Error`: its human-readable text.
#[verifier::external_body]
pub(crate) fn error_text(e: &SslError) -> (r: String) {
    e.to_string()
}

/// Relies on `MidHandshakeSslStream::get_ref`: the transport.
#[verifier::external_body]
pub(crate) fn mid_transport<S>(m: &MidHandshakeSslStream<S>) -> (r: &S) {
    m.get_ref()
}

/// Relies on `MidHandshakeSslStream::get_mut`: the transport.
#[verifier::external_body]
pub(crate) fn mid_transport_mut<S>(m: &mut MidHandshakeSslStream<S>) -> (r: &mut S) {
    m.get_mut()
}

/// Relies on `SslStream::get_ref`: the transport.
#[verifier::external_body]
pub(crate) fn stream_transport<S>(s: &SslStream<S>) -> (r: &S) {
    s.get_ref()
}

/// Relies on `SslStream::get_mut`: the transport.
#[verifier::external_body]
pub(crate) fn stream_transport_mut<S>(s: &mut SslStream<S>) -> (r: &mut S) {
    s.get_mut()
}

/// Relies on `Read for SslStream`: decrypted bytes go to the front of `buf`,
/// and `Read::read` documents the count as at most the buffer's length; an
/// empty buffer is answered with `Ok(0)` before the engine is asked.
#[verifier::external_body]
pub(crate) fn read_plain<S: Read + Write>(s: &mut SslStream<S>, buf: &mut [u8]) -> (r: Result<usize, std::io::Error>)
    ensures
        old(buf)@.len() == 0 ==> r matches Ok(0),
        final(buf)@.len() == old(buf)@.len(),
        r matches Ok(n) ==> n <= old(buf)@.len(),
{
    s.read(buf)
}

/// Relies on `Write for SslStream`: the count is of bytes taken from the
/// front of `buf`, at most its length as `Write::write` documents; an empty
/// buffer is answered with `Ok(0)` before the engine is asked.
#[verifier::external_body]
pub(crate) fn write_plain<S: Read + Write>(s: &mut SslStream<S>, buf: &[u8]) -> (r: Result<usize, std::io::Error>)
    ensures
        buf@.len() == 0 ==> r matches Ok(0),
        r matches Ok(n) ==> n <= buf@.len(),
{
    s.write(buf)
}

/// Relies on `Write::flush for SslStream`: buffered output reaches the
/// transport.
#[verifier::external_body]
pub(crate) fn flush_plain<S: Read + Write>(s: &mut SslStream<S>) -> (r: Result<(), std::io::Error>) {
    s.flush()
}

} // verus!
