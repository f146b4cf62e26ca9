use native_tls::{ClientBuilder, HandshakeError, MidHandshakeTlsStream};
use openssl::asn1::Asn1Time;
use openssl::bn::BigNum;
use openssl::hash::MessageDigest;
use openssl::pkey::PKey;
use openssl::rsa::Rsa;
use openssl::ssl::{self as engine, SslAcceptor, SslMethod};
use openssl::x509::{X509Builder, X509NameBuilder};
use std::cell::RefCell;
use std::collections::VecDeque;
use std::io::{self, Read, Write};
use std::rc::Rc;

type Queue = Rc<RefCell<VecDeque<u8>>>;

/// One end of an in-memory duplex pipe; reads that find nothing would block.
#[derive(Debug)]
struct End {
    incoming: Queue,
    outgoing: Queue,
}

impl Read for End {
    fn read(&mut self, buf: &mut [u8]) -> io::Result<usize> {
        let mut q = self.incoming.borrow_mut();
        if q.is_empty() {
            return Err(io::Error::new(io::ErrorKind::WouldBlock, "empty"));
        }
        let mut n = 0;
        while n < buf.len() {
            match q.pop_front() {
                Some(b) => {
                    buf[n] = b;
                    n += 1;
                }
                None => break,
            }
        }
        Ok(n)
    }
}

impl Write for End {
    fn write(&mut self, buf: &[u8]) -> io::Result<usize> {
        self.outgoing.borrow_mut().extend(buf.iter().copied());
        Ok(buf.len())
    }

    fn flush(&mut self) -> io::Result<()> {
        Ok(())
    }
}

fn pipe() -> (End, End) {
    let a: Queue = Rc::new(RefCell::new(VecDeque::new()));
    let b: Queue = Rc::new(RefCell::new(VecDeque::new()));
    (
        End { incoming: a.clone(), outgoing: b.clone() },
        End { incoming: b, outgoing: a },
    )
}

fn acceptor_for(subject: &str) -> SslAcceptor {
    let key = PKey::from_rsa(Rsa::generate(2048).unwrap()).unwrap();
    let mut name = X509NameBuilder::new().unwrap();
    name.append_entry_by_text("CN", subject).unwrap();
    let name = name.build();
    let mut cert = X509Builder::new().unwrap();
    cert.set_version(2).unwrap();
    cert.set_subject_name(&name).unwrap();
    cert.set_issuer_name(&name).unwrap();
    cert.set_pubkey(&key).unwrap();
    cert.set_not_before(&Asn1Time::days_from_now(0).unwrap()).unwrap();
    cert.set_not_after(&Asn1Time::days_from_now(30).unwrap()).unwrap();
    let serial = BigNum::from_u32(1).unwrap().to_asn1_integer().unwrap();
    cert.set_serial_number(&serial).unwrap();
    cert.sign(&key, MessageDigest::sha256()).unwrap();
    let cert = cert.build();
    let mut acc = SslAcceptor::mozilla_intermediate_v5(SslMethod::tls()).unwrap();
    acc.set_private_key(&key).unwrap();
    acc.set_certificate(&cert).unwrap();
    acc.build()
}

enum Server {
    Waiting(engine::MidHandshakeSslStream<End>),
    Done,
}

fn step_server(s: Server) -> Server {
    match s {
        Server::Waiting(m) => match m.handshake() {
            Err(engine::HandshakeError::WouldBlock(m)) => Server::Waiting(m),
            _ => Server::Done,
        },
        Server::Done => Server::Done,
    }
}

#[test]
fn certificate_for_another_name_is_refused() {
    let acc = acceptor_for("other.example");
    let (client_end, server_end) = pipe();
    let mut b = ClientBuilder::new().expect("context builds");
    let mut client: MidHandshakeTlsStream<End> = match b.handshake("example.com", client_end) {
        Err(HandshakeError::Interrupted(m)) => m,
        Err(HandshakeError::Failure(e)) => panic!("failed before the peer spoke: {}", e.description()),
        Ok(_) => panic!("no session can exist yet"),
    };
    let mut server = match acc.accept(server_end) {
        Err(engine::HandshakeError::WouldBlock(m)) => Server::Waiting(m),
        _ => panic!("server should wait for the client"),
    };
    for _ in 0..50 {
        match client.handshake() {
            Ok(_) => panic!("a certificate for another name was accepted"),
            Err(HandshakeError::Failure(e)) => {
                assert!(!e.description().is_empty());
                return;
            }
            Err(HandshakeError::Interrupted(m)) => client = m,
        }
        server = step_server(server);
    }
    panic!("the handshake neither failed nor completed");
}
