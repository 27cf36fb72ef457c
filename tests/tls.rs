use native_tls::builder::{ClientBuilder, ServerBuilder};
use native_tls::credential::{Certificate, Identity};
use native_tls::error::Error;
use native_tls::handshake::{HandshakeError, HandshakeStep, Role, SessionConfig, TlsStream};
use native_tls::pkcs12::{ImportRecord, Pkcs12, NO_IDENTITY};

fn cert(tag: u8) -> Certificate {
    Certificate::from_der(vec![0x30, 0x82, tag, tag])
}

fn ders(certs: &[Certificate]) -> Vec<Vec<u8>> {
    certs.iter().map(|c| c.to_der()).collect()
}

fn leaf_identity() -> Identity {
    Identity::new(cert(1), 77)
}

fn record(identity: Identity, chain: Vec<Certificate>) -> ImportRecord {
    ImportRecord { identity: Some(Ok(identity)), cert_chain: Some(chain) }
}

/// A transport that records what was written to it.
#[derive(Debug, PartialEq)]
struct Transport {
    sent: Vec<u8>,
}

#[test]
fn parse_removes_leaf_from_chain() {
    let record = record(leaf_identity(), vec![cert(1), cert(2), cert(3)]);
    let bundle = Pkcs12::parse(Ok(vec![record])).unwrap();
    assert_eq!(bundle.identity.certificate().to_der(), cert(1).to_der());
    assert_eq!(bundle.identity.key_handle(), 77);
    assert_eq!(ders(&bundle.chain), vec![cert(2).to_der(), cert(3).to_der()]);
}

#[test]
fn parse_dedups_leaf_present_twice() {
    let record = record(leaf_identity(), vec![cert(1), cert(2), cert(1), cert(3)]);
    let bundle = Pkcs12::parse(Ok(vec![record])).unwrap();
    let chain = ders(&bundle.chain);
    assert_eq!(chain.iter().filter(|d| **d == cert(1).to_der()).count(), 0);
    assert_eq!(chain, vec![cert(2).to_der(), cert(3).to_der()]);
}

#[test]
fn parse_keeps_chain_without_leaf() {
    let record = record(leaf_identity(), vec![cert(4), cert(5)]);
    let bundle = Pkcs12::parse(Ok(vec![record])).unwrap();
    assert_eq!(ders(&bundle.chain), vec![cert(4).to_der(), cert(5).to_der()]);
}

#[test]
fn parse_takes_first_record() {
    let first = record(leaf_identity(), vec![cert(2)]);
    let second = record(Identity::new(cert(9), 5), vec![cert(8)]);
    let bundle = Pkcs12::parse(Ok(vec![first, second])).unwrap();
    assert_eq!(bundle.identity.key_handle(), 77);
    assert_eq!(ders(&bundle.chain), vec![cert(2).to_der()]);
}

#[test]
fn parse_wrong_passphrase_is_error() {
    let failed = Error::new(-25293, "MAC verification failed".to_owned());
    match Pkcs12::parse(Err(failed)) {
        Ok(_) => panic!("a failed import gave a bundle"),
        Err(e) => {
            assert_eq!(e.code(), -25293);
            assert_eq!(e.description(), "MAC verification failed");
        }
    }
}

#[test]
fn parse_without_records_is_error() {
    match Pkcs12::parse(Ok(Vec::new())) {
        Ok(_) => panic!("an empty import gave a bundle"),
        Err(e) => assert_eq!(e.code(), NO_IDENTITY),
    }
}

#[test]
fn error_cause_chain() {
    let inner = Error::new(-9807, "invalid certificate chain".to_owned());
    let outer = Error::with_cause(-9806, "handshake failed".to_owned(), inner);
    assert_eq!(outer.code(), -9806);
    let cause = outer.cause().expect("a cause");
    assert_eq!(cause.code(), -9807);
    assert_eq!(cause.description(), "invalid certificate chain");
    assert!(cause.cause().is_none());
}

#[test]
fn certificate_encoding_comparison() {
    assert!(cert(1).same_encoding(&cert(1)));
    assert!(!cert(1).same_encoding(&cert(2)));
    assert!(!cert(1).same_encoding(&Certificate::from_der(vec![0x30])));
}

#[test]
fn client_handshake_completes() {
    let mut builder = ClientBuilder::new().unwrap();
    let config = builder.configure("example.test");
    assert_eq!(config.role(), Role::Client);
    assert_eq!(config.peer_domain(), Some("example.test"));
    let transport = Transport { sent: vec![1, 2, 3] };
    match builder.handshake("example.test", transport, HandshakeStep::Complete) {
        Ok(stream) => {
            assert_eq!(stream.get_ref(), &Transport { sent: vec![1, 2, 3] });
            assert_eq!(stream.config().peer_domain(), Some("example.test"));
            assert_eq!(stream.buffered_read_size(Ok(5)).unwrap(), 5);
        }
        Err(_) => panic!("the handshake did not complete"),
    }
}

#[test]
fn client_hostname_mismatch_fails() {
    let mut builder = ClientBuilder::new().unwrap();
    let mismatch = Error::new(-9813, "certificate is for other.test".to_owned());
    match builder.handshake("example.test", Transport { sent: vec![] }, HandshakeStep::Failed(mismatch)) {
        Ok(_) => panic!("a mismatched peer was accepted"),
        Err(HandshakeError::Interrupted(_)) => panic!("a failure was reported as an interruption"),
        Err(HandshakeError::Failure(e)) => {
            assert_eq!(e.code(), -9813);
            assert_eq!(e.description(), "certificate is for other.test");
        }
    }
}

#[test]
fn client_builder_is_reusable() {
    let mut builder = ClientBuilder::new().unwrap();
    let a = builder.handshake("a.test", 1u32, HandshakeStep::Complete);
    let b = builder.handshake("b.test", 2u32, HandshakeStep::Complete);
    assert_eq!(*a.ok().unwrap().get_ref(), 1);
    assert_eq!(*b.ok().unwrap().get_ref(), 2);
}

fn interrupted<S>(r: Result<TlsStream<S>, HandshakeError<S>>) -> native_tls::handshake::MidHandshakeTlsStream<S> {
    match r {
        Err(HandshakeError::Interrupted(m)) => m,
        _ => panic!("expected an interruption"),
    }
}

#[test]
fn interrupted_handshake_resumes_to_completion() {
    let mut builder = ClientBuilder::new().unwrap();
    let first = builder.handshake("example.test", Transport { sent: vec![7] }, HandshakeStep::WouldBlock);
    let mut mid = interrupted(first);
    assert_eq!(mid.get_ref(), &Transport { sent: vec![7] });
    mid.get_mut().sent.push(8);
    let mid = interrupted(mid.handshake(HandshakeStep::WouldBlock));
    assert_eq!(mid.config().peer_domain(), Some("example.test"));
    match mid.handshake(HandshakeStep::Complete) {
        Ok(stream) => assert_eq!(stream.get_ref(), &Transport { sent: vec![7, 8] }),
        Err(_) => panic!("the resumed handshake did not complete"),
    }
}

#[test]
fn interrupted_handshake_can_fail() {
    let mut builder = ClientBuilder::new().unwrap();
    let mid = interrupted(builder.handshake("example.test", 0u8, HandshakeStep::WouldBlock));
    match mid.handshake(HandshakeStep::Failed(Error::new(-9806, "closed".to_owned()))) {
        Err(HandshakeError::Failure(e)) => assert_eq!(e.code(), -9806),
        _ => panic!("expected a failure"),
    }
}

#[test]
fn server_handshake_presents_deduplicated_bundle() {
    let record = record(leaf_identity(), vec![cert(1), cert(2), cert(1), cert(3)]);
    let bundle = Pkcs12::parse(Ok(vec![record])).unwrap();
    let mut server = ServerBuilder::new(bundle.identity, bundle.chain).unwrap();
    let config = server.configure();
    assert_eq!(config.role(), Role::Server);
    assert_eq!(config.peer_domain(), None);
    assert_eq!(config.identity().unwrap().key_handle(), 77);
    assert_eq!(ders(config.chain()), vec![cert(2).to_der(), cert(3).to_der()]);
    for n in 0..2u32 {
        match server.handshake(n, HandshakeStep::Complete) {
            Ok(stream) => {
                assert_eq!(*stream.get_ref(), n);
                assert_eq!(ders(stream.config().chain()), vec![cert(2).to_der(), cert(3).to_der()]);
            }
            Err(_) => panic!("the server handshake did not complete"),
        }
    }
}

#[test]
fn tls_stream_buffered_size_and_transport() {
    let mut builder = ClientBuilder::new().unwrap();
    let mut stream = builder.handshake("example.test", vec![1u8], HandshakeStep::Complete).ok().unwrap();
    assert_eq!(stream.buffered_read_size(Ok(42)).unwrap(), 42);
    stream.get_mut().push(2);
    assert_eq!(stream.get_ref(), &vec![1u8, 2]);
    match stream.buffered_read_size(Err(Error::new(-9806, "connection closed".to_owned()))) {
        Ok(_) => panic!("a failed engine query was swallowed"),
        Err(e) => {
            assert_eq!(e.code(), -9806);
            assert_eq!(e.description(), "connection closed");
        }
    }
}

#[test]
fn session_config_constructors() {
    let client = SessionConfig::client("");
    assert_eq!(client.peer_domain(), Some(""));
    assert!(client.identity().is_none());
    assert!(client.chain().is_empty());
    let server = SessionConfig::server(&leaf_identity(), &vec![cert(3)]);
    assert_eq!(server.role(), Role::Server);
    assert_eq!(server.identity().unwrap().certificate().to_der(), cert(1).to_der());
    assert_eq!(ders(server.chain()), vec![cert(3).to_der()]);
}

#[test]
fn certificates_equal_by_encoding() {
    assert_eq!(cert(6), Certificate::from_der(vec![0x30, 0x82, 6, 6]));
    assert_ne!(cert(6), cert(7));
}

#[test]
fn parse_first_record_without_identity_is_error() {
    let first = ImportRecord { identity: None, cert_chain: Some(vec![cert(2)]) };
    let second = record(leaf_identity(), vec![cert(3)]);
    match Pkcs12::parse(Ok(vec![first, second])) {
        Ok(_) => panic!("a record without identity gave a bundle"),
        Err(e) => assert_eq!(e.code(), NO_IDENTITY),
    }
}

#[test]
fn parse_unreadable_identity_is_error() {
    let unreadable = Error::new(-25304, "invalid item reference".to_owned());
    let first = ImportRecord { identity: Some(Err(unreadable)), cert_chain: None };
    match Pkcs12::parse(Ok(vec![first])) {
        Ok(_) => panic!("an unreadable identity gave a bundle"),
        Err(e) => {
            assert_eq!(e.code(), -25304);
            assert_eq!(e.description(), "invalid item reference");
        }
    }
}

#[test]
fn parse_unreadable_later_record_is_ignored() {
    let first = record(leaf_identity(), vec![cert(2)]);
    let second = ImportRecord { identity: Some(Err(Error::new(-25304, "bad".to_owned()))), cert_chain: None };
    let bundle = Pkcs12::parse(Ok(vec![first, second])).unwrap();
    assert_eq!(ders(&bundle.chain), vec![cert(2).to_der()]);
}

#[test]
fn parse_record_without_chain_gives_empty_chain() {
    let first = ImportRecord { identity: Some(Ok(leaf_identity())), cert_chain: None };
    let bundle = Pkcs12::parse(Ok(vec![first])).unwrap();
    assert_eq!(bundle.identity.key_handle(), 77);
    assert!(bundle.chain.is_empty());
}
