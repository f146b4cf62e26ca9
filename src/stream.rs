//! The established session, read and written as a byte stream.
use crate::engine::{flush_plain, read_plain, stream_transport, stream_transport_mut, write_plain};
use crate::session::SessionModel;
use openssl::ssl::SslStream;
use std::io::{Read, Write};
use vstd::prelude::*;

verus! {

/// A TLS session whose handshake has completed.
#[verifier::reject_recursive_types(S)]
pub struct TlsStream<S> {
    inner: SslStream<S>,
    model: Ghost<SessionModel>,
}

impl<S> TlsStream<S> {
    /// The engine's session.
    pub closed spec fn engine(&self) -> SslStream<S> {
        self.inner
    }

    /// What the session was set up with.
    pub closed spec fn model(&self) -> SessionModel {
        self.model@
    }

    pub(crate) fn new(s: SslStream<S>, model: Ghost<SessionModel>) -> (r: TlsStream<S>)
        ensures
            r.engine() == s,
            r.model() == model@,
    {
        TlsStream { inner: s, model }
    }

    /// The transport.
    pub fn get_ref(&self) -> (r: &S) {
        stream_transport(&self.inner)
    }

    /// The transport.
    pub fn get_mut(&mut self) -> (r: &mut S) {
        stream_transport_mut(&mut self.inner)
    }
}

impl<S: Read + Write> TlsStream<S> {
    /// Decrypts application bytes into the front of `buf`; the count is at
    /// most the buffer's length.
    pub fn read(&mut self, buf: &mut [u8]) -> (r: Result<usize, std::io::Error>)
        ensures
            final(buf)@.len() == old(buf)@.len(),
            old(buf)@.len() == 0 ==> r matches Ok(0),
            r matches Ok(n) ==> n <= old(buf)@.len(),
    {
        read_plain(&mut self.inner, buf)
    }

    /// Encrypts bytes from the front of `buf` and sends them; the count is at
    /// most the buffer's length.
    pub fn write(&mut self, buf: &[u8]) -> (r: Result<usize, std::io::Error>)
        ensures
            buf@.len() == 0 ==> r matches Ok(0),
            r matches Ok(n) ==> n <= buf@.len(),
    {
        write_plain(&mut self.inner, buf)
    }

    /// Sends what is buffered on to the transport.
    pub fn flush(&mut self) -> (r: Result<(), std::io::Error>) {
        flush_plain(&mut self.inner)
    }
}

impl<S: Read + Write> Read for TlsStream<S> {
    fn read(&mut self, buf: &mut [u8]) -> (r: Result<usize, std::io::Error>)
        ensures
            final(buf)@.len() == old(buf)@.len(),
            old(buf)@.len() == 0 ==> r matches Ok(0),
            r matches Ok(n) ==> n <= old(buf)@.len(),
    {
        TlsStream::read(self, buf)
    }
}

impl<S: Read + Write> Write for TlsStream<S> {
    fn write(&mut self, buf: &[u8]) -> (r: Result<usize, std::io::Error>)
        ensures
            buf@.len() == 0 ==> r matches Ok(0),
            r matches Ok(n) ==> n <= buf@.len(),
    {
        TlsStream::write(self, buf)
    }

    fn flush(&mut self) -> (r: Result<(), std::io::Error>) {
        TlsStream::flush(self)
    }
}

/// Access to the engine's own session, for what the portable calls do not
/// cover.
pub trait TlsStreamExt<S> {
    /// The engine's session.
    fn raw_stream(&self) -> &SslStream<S>;

    /// The engine's session.
    fn raw_stream_mut(&mut self) -> &mut SslStream<S>;
}

impl<S> TlsStreamExt<S> for TlsStream<S> {
    fn raw_stream(&self) -> (r: &SslStream<S>)
        ensures
            *r == self.engine(),
    {
        &self.inner
    }

    fn raw_stream_mut(&mut self) -> (r: &mut SslStream<S>)
        ensures
            *r == old(self).engine(),
    {
        &mut self.inner
    }
}

} // verus!
