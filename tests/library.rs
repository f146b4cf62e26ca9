use native_tls::{
    non_empty_description, ClientBuilder, Error, HandshakeError, LegacyFeature, ProtocolMethod,
    TlsPolicy,
    FALLBACK_DESCRIPTION, HARDENED_CIPHER_LIST,
};
use openssl::error::ErrorStack;
use std::io::{self, Read, Write};

/// A transport whose reads never have data yet.
#[derive(Debug, Default)]
struct Pending {
    written: Vec<u8>,
}

impl Read for Pending {
    fn read(&mut self, _buf: &mut [u8]) -> io::Result<usize> {
        Err(io::Error::new(io::ErrorKind::WouldBlock, "no data yet"))
    }
}

impl Write for Pending {
    fn write(&mut self, buf: &[u8]) -> io::Result<usize> {
        self.written.extend_from_slice(buf);
        Ok(buf.len())
    }

    fn flush(&mut self) -> io::Result<()> {
        Ok(())
    }
}

/// A transport whose peer has hung up.
#[derive(Debug, Default)]
struct Closed;

impl Read for Closed {
    fn read(&mut self, _buf: &mut [u8]) -> io::Result<usize> {
        Ok(0)
    }
}

impl Write for Closed {
    fn write(&mut self, buf: &[u8]) -> io::Result<usize> {
        Ok(buf.len())
    }

    fn flush(&mut self) -> io::Result<()> {
        Ok(())
    }
}

/// A transport that answers with bytes that are no TLS record.
#[derive(Debug, Default)]
struct Garbage;

impl Read for Garbage {
    fn read(&mut self, buf: &mut [u8]) -> io::Result<usize> {
        for b in buf.iter_mut() {
            *b = b'x';
        }
        Ok(buf.len())
    }
}

impl Write for Garbage {
    fn write(&mut self, buf: &[u8]) -> io::Result<usize> {
        Ok(buf.len())
    }

    fn flush(&mut self) -> io::Result<()> {
        Ok(())
    }
}

#[test]
fn error_conversions_keep_the_text() {
    let e: Error = Error::from(ErrorStack::get());
    assert!(!e.description().is_empty());
    let again: Error = Error::from(openssl::ssl::Error::from(ErrorStack::get()));
    assert_eq!(again.description(), e.description());
}

#[test]
fn empty_description_is_replaced() {
    assert_eq!(non_empty_description(String::new()), FALLBACK_DESCRIPTION);
    assert!(!FALLBACK_DESCRIPTION.is_empty());
}

#[test]
fn engine_description_is_kept() {
    assert_eq!(non_empty_description("bad record mac".to_string()), "bad record mac");
}

#[test]
fn hardened_policy_values() {
    let p = TlsPolicy::hardened();
    assert_eq!(p.method, ProtocolMethod::Negotiated);
    assert_eq!(
        p.disabled,
        vec![LegacyFeature::Sslv2, LegacyFeature::Sslv3, LegacyFeature::Compression]
    );
    assert!(p.default_roots);
    assert_eq!(p.cipher_list, "ALL!EXPORT!EXPORT40!EXPORT56!aNULL!LOW!RC4@STRENGTH");
    assert_eq!(p.cipher_list, HARDENED_CIPHER_LIST);
}

#[test]
fn builder_applies_hardened_policy() {
    let b = ClientBuilder::new().expect("context builds");
    let p = b.policy();
    assert_eq!(p.disabled.len(), 3);
    assert!(p.default_roots);
    assert_eq!(p.cipher_list, HARDENED_CIPHER_LIST);
}

#[test]
fn two_builders_agree() {
    let a = ClientBuilder::new().expect("context builds");
    let b = ClientBuilder::new().expect("context builds");
    assert_eq!(a.policy().method, b.policy().method);
    assert_eq!(a.policy().disabled, b.policy().disabled);
    assert_eq!(a.policy().default_roots, b.policy().default_roots);
    assert_eq!(a.policy().cipher_list, b.policy().cipher_list);
}

#[test]
fn error_description_is_stable_and_non_empty() {
    let e = Error::from_stack(ErrorStack::get());
    let first = e.description().to_string();
    assert!(!first.is_empty());
    assert_eq!(e.description(), first);
    assert_eq!(e.description(), e.engine().to_string());
}

#[test]
fn setup_failure_is_a_failure() {
    let r: HandshakeError<Pending> = HandshakeError::from(ErrorStack::get());
    match r {
        HandshakeError::Failure(e) => assert!(!e.description().is_empty()),
        HandshakeError::Interrupted(_) => panic!("expected a failure"),
    }
}

#[test]
fn pending_transport_interrupts_and_resumes() {
    let mut b = ClientBuilder::new().expect("context builds");
    let mid = match b.handshake("example.com", Pending::default()) {
        Err(HandshakeError::Interrupted(m)) => m,
        _ => panic!("expected an interruption"),
    };
    assert!(!mid.get_ref().written.is_empty());
    let mid = match mid.handshake() {
        Err(HandshakeError::Interrupted(m)) => m,
        _ => panic!("expected another interruption"),
    };
    assert!(!mid.get_ref().written.is_empty());
}

#[test]
fn dropped_handshake_leaves_fresh_one_alone() {
    let mut b = ClientBuilder::new().expect("context builds");
    match b.handshake("example.com", Pending::default()) {
        Err(HandshakeError::Interrupted(m)) => drop(m),
        _ => panic!("expected an interruption"),
    }
    match b.handshake("example.org", Pending::default()) {
        Err(HandshakeError::Interrupted(mut m)) => {
            assert!(!m.get_mut().written.is_empty());
        }
        _ => panic!("expected an interruption"),
    }
}

#[test]
fn closed_transport_fails() {
    let mut b = ClientBuilder::new().expect("context builds");
    match b.handshake("example.com", Closed) {
        Err(HandshakeError::Failure(e)) => assert!(!e.description().is_empty()),
        _ => panic!("expected a failure"),
    }
}

#[test]
fn garbage_peer_fails() {
    let mut b = ClientBuilder::new().expect("context builds");
    match b.handshake("example.com", Garbage) {
        Err(HandshakeError::Failure(e)) => assert!(!e.description().is_empty()),
        _ => panic!("expected a failure"),
    }
}
