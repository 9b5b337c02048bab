use std::cell::RefCell;
use std::collections::VecDeque;
use std::io::{self, Read, Write};
use std::rc::Rc;

use native_tls::{
    ErrorKind, HandshakeError, MidHandshakeTlsStream, Pkcs12, Protocol, TlsAcceptor,
    TlsAcceptorBuilderExt, TlsConnector, TlsConnectorBuilderExt, TlsStream, TlsStreamExt,
};
use openssl::asn1::Asn1Time;
use openssl::bn::BigNum;
use openssl::ec::{EcGroup, EcKey};
use openssl::hash::MessageDigest;
use openssl::nid::Nid;
use openssl::pkey::{PKey, Private};
use openssl::x509::extension::{BasicConstraints, SubjectAlternativeName};
use openssl::x509::{X509NameBuilder, X509};

/// A self-signed certificate for "localhost" with its key.
fn self_signed() -> (X509, PKey<Private>) {
    let group = EcGroup::from_curve_name(Nid::X9_62_PRIME256V1).unwrap();
    let key = PKey::from_ec_key(EcKey::generate(&group).unwrap()).unwrap();
    let mut name = X509NameBuilder::new().unwrap();
    name.append_entry_by_nid(Nid::COMMONNAME, "localhost").unwrap();
    let name = name.build();
    let mut builder = X509::builder().unwrap();
    builder.set_version(2).unwrap();
    builder.set_subject_name(&name).unwrap();
    builder.set_issuer_name(&name).unwrap();
    builder.set_pubkey(&key).unwrap();
    builder.set_not_before(&Asn1Time::days_from_now(0).unwrap()).unwrap();
    builder.set_not_after(&Asn1Time::days_from_now(30).unwrap()).unwrap();
    let serial = BigNum::from_u32(1).unwrap().to_asn1_integer().unwrap();
    builder.set_serial_number(&serial).unwrap();
    builder.append_extension(BasicConstraints::new().ca().build().unwrap()).unwrap();
    let san = SubjectAlternativeName::new()
        .dns("localhost")
        .build(&builder.x509v3_context(None, None))
        .unwrap();
    builder.append_extension(san).unwrap();
    builder.sign(&key, MessageDigest::sha256()).unwrap();
    (builder.build(), key)
}

/// A certificate authority, a leaf certificate for "localhost" signed by it,
/// and the leaf's key.
fn ca_signed() -> (X509, X509, PKey<Private>) {
    let group = EcGroup::from_curve_name(Nid::X9_62_PRIME256V1).unwrap();
    let ca_key = PKey::from_ec_key(EcKey::generate(&group).unwrap()).unwrap();
    let mut ca_name = X509NameBuilder::new().unwrap();
    ca_name.append_entry_by_nid(Nid::COMMONNAME, "test root").unwrap();
    let ca_name = ca_name.build();
    let mut ca = X509::builder().unwrap();
    ca.set_version(2).unwrap();
    ca.set_subject_name(&ca_name).unwrap();
    ca.set_issuer_name(&ca_name).unwrap();
    ca.set_pubkey(&ca_key).unwrap();
    ca.set_not_before(&Asn1Time::days_from_now(0).unwrap()).unwrap();
    ca.set_not_after(&Asn1Time::days_from_now(30).unwrap()).unwrap();
    let serial = BigNum::from_u32(1).unwrap().to_asn1_integer().unwrap();
    ca.set_serial_number(&serial).unwrap();
    ca.append_extension(BasicConstraints::new().ca().build().unwrap()).unwrap();
    ca.sign(&ca_key, MessageDigest::sha256()).unwrap();
    let ca = ca.build();

    let leaf_key = PKey::from_ec_key(EcKey::generate(&group).unwrap()).unwrap();
    let mut leaf_name = X509NameBuilder::new().unwrap();
    leaf_name.append_entry_by_nid(Nid::COMMONNAME, "localhost").unwrap();
    let leaf_name = leaf_name.build();
    let mut leaf = X509::builder().unwrap();
    leaf.set_version(2).unwrap();
    leaf.set_subject_name(&leaf_name).unwrap();
    leaf.set_issuer_name(ca.subject_name()).unwrap();
    leaf.set_pubkey(&leaf_key).unwrap();
    leaf.set_not_before(&Asn1Time::days_from_now(0).unwrap()).unwrap();
    leaf.set_not_after(&Asn1Time::days_from_now(30).unwrap()).unwrap();
    let serial = BigNum::from_u32(2).unwrap().to_asn1_integer().unwrap();
    leaf.set_serial_number(&serial).unwrap();
    let san = SubjectAlternativeName::new()
        .dns("localhost")
        .build(&leaf.x509v3_context(None, None))
        .unwrap();
    leaf.append_extension(san).unwrap();
    leaf.sign(&ca_key, MessageDigest::sha256()).unwrap();
    (ca, leaf.build(), leaf_key)
}

/// A PKCS#12 bundle for that certificate, and the certificate to trust.
fn identity_der(pass: &str) -> (Vec<u8>, X509) {
    let (cert, key) = self_signed();
    let p12 = openssl::pkcs12::Pkcs12::builder()
        .name("test")
        .pkey(&key)
        .cert(&cert)
        .build2(pass)
        .unwrap();
    (p12.to_der().unwrap(), cert)
}

struct Shared {
    to_server: VecDeque<u8>,
    to_client: VecDeque<u8>,
}

/// One end of an in-memory duplex transport that reports would-block instead
/// of waiting.
struct Duplex {
    shared: Rc<RefCell<Shared>>,
    client: bool,
}

fn duplex_pair() -> (Duplex, Duplex) {
    let shared = Rc::new(RefCell::new(Shared {
        to_server: VecDeque::new(),
        to_client: VecDeque::new(),
    }));
    (Duplex { shared: shared.clone(), client: true }, Duplex { shared, client: false })
}

impl Read for Duplex {
    fn read(&mut self, buf: &mut [u8]) -> io::Result<usize> {
        let mut shared = self.shared.borrow_mut();
        let queue = if self.client { &mut shared.to_client } else { &mut shared.to_server };
        if queue.is_empty() {
            return Err(io::Error::new(io::ErrorKind::WouldBlock, "no bytes yet"));
        }
        let mut n = 0;
        while n < buf.len() {
            match queue.pop_front() {
                Some(b) => {
                    buf[n] = b;
                    n += 1;
                }
                None => break,
            }
        }
        Ok(n)
    }
}

impl Write for Duplex {
    fn write(&mut self, buf: &[u8]) -> io::Result<usize> {
        let mut shared = self.shared.borrow_mut();
        let queue = if self.client { &mut shared.to_server } else { &mut shared.to_client };
        queue.extend(buf.iter().copied());
        Ok(buf.len())
    }

    fn flush(&mut self) -> io::Result<()> {
        Ok(())
    }
}

enum Side {
    Mid(MidHandshakeTlsStream<Duplex>),
    Done(TlsStream<Duplex>),
    Failed(native_tls::Error),
}

fn start(r: Result<TlsStream<Duplex>, HandshakeError<Duplex>>) -> Side {
    match r {
        Ok(s) => Side::Done(s),
        Err(HandshakeError::Interrupted(m)) => Side::Mid(m),
        Err(HandshakeError::Failure(e)) => Side::Failed(e),
    }
}

fn step(side: Side) -> Side {
    match side {
        Side::Mid(m) => start(m.handshake()),
        done => done,
    }
}

fn settled(side: &Side) -> bool {
    !matches!(side, Side::Mid(_))
}

/// Alternates the two half-finished handshakes until both settle.
fn drive(mut client: Side, mut server: Side) -> (Side, Side) {
    for _ in 0..50 {
        if settled(&client) && settled(&server) {
            break;
        }
        client = step(client);
        server = step(server);
    }
    (client, server)
}

fn connector_for(cert: &X509, allowed: &[Protocol]) -> TlsConnector {
    let mut builder = TlsConnector::builder().unwrap();
    builder.supported_protocols(allowed).unwrap();
    builder.builder_mut().cert_store_mut().add_cert(cert.clone()).unwrap();
    builder.build().unwrap()
}

fn acceptor_for(der: &[u8], pass: &str, allowed: &[Protocol]) -> TlsAcceptor {
    let identity = Pkcs12::from_der(der, pass).unwrap();
    let mut builder = TlsAcceptor::builder(identity).unwrap();
    builder.supported_protocols(allowed).unwrap();
    builder.build().unwrap()
}

fn shutdown_both(client: &mut TlsStream<Duplex>, server: &mut TlsStream<Duplex>) {
    let mut client_down = false;
    let mut server_down = false;
    for _ in 0..20 {
        if !client_down {
            match client.shutdown() {
                Ok(()) => client_down = true,
                Err(e) if e.kind() == io::ErrorKind::WouldBlock => {}
                Err(e) => panic!("client shutdown failed: {}", e),
            }
        }
        if !server_down {
            match server.shutdown() {
                Ok(()) => server_down = true,
                Err(e) if e.kind() == io::ErrorKind::WouldBlock => {}
                Err(e) => panic!("server shutdown failed: {}", e),
            }
        }
        if client_down && server_down {
            break;
        }
    }
    assert!(client_down && server_down);
}

#[test]
fn valid_bundle_parses() {
    let (der, _) = identity_der("opensesame");
    let identity = Pkcs12::from_der(&der, "opensesame").unwrap();
    // The key matches the certificate: binding the identity passes the
    // engine's key check.
    let mut builder = TlsConnector::builder().unwrap();
    builder.identity(identity).unwrap();
}

#[test]
fn wrong_passphrase_is_configuration_error() {
    let (der, _) = identity_der("opensesame");
    let err = match Pkcs12::from_der(&der, "wrong") {
        Err(e) => e,
        Ok(_) => panic!("parsed under a wrong passphrase"),
    };
    assert_eq!(err.kind(), ErrorKind::Configuration);
    let _ = err.message();
}

#[test]
fn malformed_bundle_is_configuration_error() {
    let err = match Pkcs12::from_der(b"not a bundle at all", "pass") {
        Err(e) => e,
        Ok(_) => panic!("parsed a malformed bundle"),
    };
    assert_eq!(err.kind(), ErrorKind::Configuration);
}

#[test]
fn same_inputs_same_outcome() {
    let (der, _) = identity_der("opensesame");
    for _ in 0..3 {
        assert!(Pkcs12::from_der(&der, "opensesame").is_ok());
        assert!(Pkcs12::from_der(&der, "wrong").is_err());
    }
}

#[test]
fn end_to_end_ping() {
    let (der, cert) = identity_der("opensesame");
    let connector = connector_for(&cert, &[Protocol::Tlsv12]);
    let acceptor = acceptor_for(&der, "opensesame", &[Protocol::Tlsv12]);
    let (client_end, server_end) = duplex_pair();

    // The transport reports would-block before the peer has answered, so the
    // first attempt must suspend rather than fail.
    let first = start(connector.connect("localhost", client_end));
    assert!(matches!(first, Side::Mid(_)));
    let (client, server) = drive(first, start(acceptor.accept(server_end)));
    let (mut client, mut server) = match (client, server) {
        (Side::Done(c), Side::Done(s)) => (c, s),
        (Side::Failed(e), _) => panic!("client handshake failed: {}", e.message()),
        (_, Side::Failed(e)) => panic!("server handshake failed: {}", e.message()),
        _ => panic!("handshake did not settle"),
    };

    // Only the allowed version may have been negotiated.
    assert_eq!(client.raw_stream().ssl().version_str(), "TLSv1.2");
    assert_eq!(server.raw_stream().ssl().version_str(), "TLSv1.2");

    // Round trip: what the client writes, the server reads, byte for byte.
    assert_eq!(client.write(b"ping").unwrap(), 4);
    client.flush().unwrap();
    let mut first_byte = [0u8; 1];
    assert_eq!(server.read(&mut first_byte).unwrap(), 1);
    // The rest of the record is decrypted already and waits in the buffer.
    assert_eq!(server.buffered_read_size().unwrap(), 3);
    let mut rest = [0u8; 3];
    assert_eq!(server.read(&mut rest).unwrap(), 3);
    assert_eq!(&first_byte, b"p");
    assert_eq!(&rest, b"ing");

    // And back: the server answers, the client reads it.
    assert_eq!(server.write(b"pong").unwrap(), 4);
    server.flush().unwrap();
    let mut answer = [0u8; 4];
    assert_eq!(client.read(&mut answer).unwrap(), 4);
    assert_eq!(&answer, b"pong");

    // The wrapped transport stays reachable.
    assert!(client.get_ref().client);
    assert!(!server.get_ref().client);

    shutdown_both(&mut client, &mut server);

    // Shutting an already-shut-down stream down again reports success, not a
    // panic or a corrupted state.
    assert!(client.shutdown().is_ok());
    assert!(server.shutdown().is_ok());

    // The transport outlives the secure channel.
    client.get_mut().write_all(b"raw").unwrap();
}

#[test]
fn version_mismatch_fails_both_sides() {
    let (der, cert) = identity_der("opensesame");
    let connector = connector_for(&cert, &[Protocol::Tlsv12]);
    let acceptor = acceptor_for(&der, "opensesame", &[Protocol::Sslv3, Protocol::Tlsv10]);
    let (client_end, server_end) = duplex_pair();

    let (client, server) = drive(
        start(connector.connect("localhost", client_end)),
        start(acceptor.accept(server_end)),
    );
    match client {
        Side::Failed(e) => assert_eq!(e.kind(), ErrorKind::Handshake),
        Side::Done(_) => panic!("client handshake succeeded across disjoint allow-lists"),
        Side::Mid(_) => panic!("client handshake did not settle"),
    }
    match server {
        Side::Failed(e) => assert_eq!(e.kind(), ErrorKind::Handshake),
        Side::Done(_) => panic!("server handshake succeeded across disjoint allow-lists"),
        Side::Mid(_) => panic!("server handshake did not settle"),
    }
}

#[test]
fn empty_allow_list_never_negotiates() {
    let (der, cert) = identity_der("opensesame");
    let connector = connector_for(&cert, &[]);
    let acceptor = acceptor_for(&der, "opensesame", &[Protocol::Tlsv12]);
    let (client_end, server_end) = duplex_pair();

    let (client, _) = drive(
        start(connector.connect("localhost", client_end)),
        start(acceptor.accept(server_end)),
    );
    match client {
        Side::Failed(e) => assert_eq!(e.kind(), ErrorKind::Handshake),
        Side::Done(_) => panic!("handshake succeeded with every version disabled"),
        Side::Mid(_) => panic!("handshake did not settle"),
    }
}

#[test]
fn last_allow_list_wins() {
    // The restriction is replaced wholesale by the last call, so a handshake
    // after restricting to TLS 1.0 and then to TLS 1.2 negotiates TLS 1.2.
    let (der, cert) = identity_der("opensesame");
    let mut builder = TlsConnector::builder().unwrap();
    builder.supported_protocols(&[Protocol::Tlsv10]).unwrap();
    builder.supported_protocols(&[Protocol::Tlsv12]).unwrap();
    builder.builder_mut().cert_store_mut().add_cert(cert.clone()).unwrap();
    let connector = builder.build().unwrap();
    let acceptor = acceptor_for(&der, "opensesame", &[Protocol::Tlsv12]);
    let (client_end, server_end) = duplex_pair();

    let (client, server) = drive(
        start(connector.connect("localhost", client_end)),
        start(acceptor.accept(server_end)),
    );
    match (client, server) {
        (Side::Done(c), Side::Done(_)) => {
            assert_eq!(c.raw_stream().ssl().version_str(), "TLSv1.2");
        }
        _ => panic!("handshake did not complete"),
    }
}

#[test]
fn untrusted_peer_is_rejected() {
    // Without the self-signed certificate in its trust store, the connector
    // must refuse the peer: a terminal failure, not a suspension.
    let (der, _) = identity_der("opensesame");
    let connector = {
        let mut builder = TlsConnector::builder().unwrap();
        builder.supported_protocols(&[Protocol::Tlsv12]).unwrap();
        builder.build().unwrap()
    };
    let acceptor = acceptor_for(&der, "opensesame", &[Protocol::Tlsv12]);
    let (client_end, server_end) = duplex_pair();

    let (client, _) = drive(
        start(connector.connect("localhost", client_end)),
        start(acceptor.accept(server_end)),
    );
    match client {
        Side::Failed(e) => assert_eq!(e.kind(), ErrorKind::Handshake),
        Side::Done(_) => panic!("an untrusted peer was accepted"),
        Side::Mid(_) => panic!("handshake did not settle"),
    }
}

#[test]
fn mid_handshake_exposes_transport() {
    let (der, cert) = identity_der("opensesame");
    let connector = connector_for(&cert, &[Protocol::Tlsv12]);
    let _acceptor = acceptor_for(&der, "opensesame", &[Protocol::Tlsv12]);
    let (client_end, _server_end) = duplex_pair();

    match connector.connect("localhost", client_end) {
        Err(HandshakeError::Interrupted(mut mid)) => {
            assert!(mid.get_ref().client);
            assert!(mid.get_mut().client);
        }
        _ => panic!("the would-block transport did not suspend the handshake"),
    }
}

#[test]
fn bundled_chain_is_presented() {
    // The client trusts only the root authority, so the handshake can
    // complete only if the acceptor presents the bundled chain certificate
    // alongside its leaf.
    let (ca, leaf, leaf_key) = ca_signed();
    let mut stack = openssl::stack::Stack::new().unwrap();
    stack.push(ca.clone()).unwrap();
    let p12 = openssl::pkcs12::Pkcs12::builder()
        .name("id")
        .pkey(&leaf_key)
        .cert(&leaf)
        .ca(stack)
        .build2("opensesame")
        .unwrap();
    let der = p12.to_der().unwrap();

    let connector = connector_for(&ca, &[Protocol::Tlsv12]);
    let acceptor = acceptor_for(&der, "opensesame", &[Protocol::Tlsv12]);
    let (client_end, server_end) = duplex_pair();
    let (client, server) = drive(
        start(connector.connect("localhost", client_end)),
        start(acceptor.accept(server_end)),
    );
    match (client, server) {
        (Side::Done(_), Side::Done(_)) => {}
        (Side::Failed(e), _) => panic!("client handshake failed: {}", e.message()),
        (_, Side::Failed(e)) => panic!("server handshake failed: {}", e.message()),
        _ => panic!("handshake did not settle"),
    }
}

#[test]
fn ext_traits_reach_the_engine() {
    let (der, _) = identity_der("opensesame");
    let identity = Pkcs12::from_der(&der, "opensesame").unwrap();
    let mut builder = TlsAcceptor::builder(identity).unwrap();
    builder.builder_mut().set_cipher_list("DEFAULT").unwrap();
    let _ = builder.builder();
    builder.build().unwrap();
}
