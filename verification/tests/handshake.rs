use embedded_tls::buffer::CryptoBuffer;
use embedded_tls::config::Certificate;
use embedded_tls::crypto::{HashAlgorithm, RustCryptoProvider, Transcript};
use embedded_tls::error::{ParseError, TlsError};
use embedded_tls::handshake::binder::PskBinder;
use embedded_tls::handshake::certificate::CertificateRef;
use embedded_tls::handshake::certificate_verify::CertificateVerify;
use embedded_tls::handshake::client_hello::ClientHello;
use embedded_tls::handshake::finished::Finished;
use embedded_tls::handshake::{
    ClientCertificate, ClientCertificateVerify, ClientHandshake, HandshakeType, ServerHandshake,
};
use embedded_tls::key_schedule::WriteKeySchedule;
use embedded_tls::parse_buffer::ParseBuffer;
use embedded_tls::signature_algorithms::SignatureScheme;
use hmac::Mac;
use sha2::Digest;

const ALL_TYPES: [(HandshakeType, u8); 11] = [
    (HandshakeType::ClientHello, 1),
    (HandshakeType::ServerHello, 2),
    (HandshakeType::NewSessionTicket, 4),
    (HandshakeType::EndOfEarlyData, 5),
    (HandshakeType::EncryptedExtensions, 8),
    (HandshakeType::Certificate, 11),
    (HandshakeType::CertificateRequest, 13),
    (HandshakeType::CertificateVerify, 15),
    (HandshakeType::Finished, 20),
    (HandshakeType::KeyUpdate, 24),
    (HandshakeType::MessageHash, 254),
];

#[test]
fn handshake_type_codes() {
    for (t, code) in ALL_TYPES {
        assert_eq!(t.as_u8(), code);
    }
}

#[test]
fn handshake_type_encode_then_parse() {
    for (t, code) in ALL_TYPES {
        let mut buf = CryptoBuffer::new(1);
        t.encode(&mut buf).unwrap();
        assert_eq!(buf.as_slice(), &[code]);
        let mut pb = ParseBuffer::new(buf.as_slice());
        assert_eq!(HandshakeType::parse(&mut pb), Ok(t));
        assert!(pb.is_empty());
    }
}

#[test]
fn handshake_type_parse_errors() {
    let empty: [u8; 0] = [];
    let mut pb = ParseBuffer::new(&empty);
    assert_eq!(HandshakeType::parse(&mut pb), Err(ParseError::InsufficientBytes));
    let bad = [3u8];
    let mut pb = ParseBuffer::new(&bad);
    assert_eq!(HandshakeType::parse(&mut pb), Err(ParseError::InvalidData));
    assert_eq!(pb.offset(), 1);
}

#[test]
fn handshake_type_encode_full_buffer() {
    let mut buf = CryptoBuffer::new(0);
    assert_eq!(HandshakeType::Finished.encode(&mut buf), Err(TlsError::EncodeError));
    assert!(buf.is_empty());
}

#[test]
fn client_handshake_types() {
    let body = [1u8, 2, 3];
    assert_eq!(
        ClientHandshake::ClientHello(ClientHello::new(&body)).handshake_type(),
        HandshakeType::ClientHello
    );
    assert_eq!(
        ClientHandshake::ClientCertificate(CertificateRef::new(&body)).handshake_type(),
        HandshakeType::Certificate
    );
    assert_eq!(
        ClientHandshake::ClientCertificateVerify(CertificateVerify::new(
            SignatureScheme::Ed25519,
            vec![1]
        ))
        .handshake_type(),
        HandshakeType::CertificateVerify
    );
    assert_eq!(
        ClientHandshake::Finished(Finished::new(vec![1])).handshake_type(),
        HandshakeType::Finished
    );
}

#[test]
fn client_handshake_encode() {
    let body = [1u8, 2, 3];
    let mut buf = CryptoBuffer::new(16);
    ClientHandshake::ClientHello(ClientHello::new(&body)).encode(&mut buf).unwrap();
    ClientHandshake::Finished(Finished::new(vec![9, 9])).encode(&mut buf).unwrap();
    ClientHandshake::ClientCertificateVerify(CertificateVerify::new(
        SignatureScheme::EcdsaSecp256r1Sha256,
        vec![0xaa],
    ))
    .encode(&mut buf)
    .unwrap();
    assert_eq!(buf.as_slice(), &[1, 2, 3, 9, 9, 0x04, 0x03, 0x00, 0x01, 0xaa]);
    let mut small = CryptoBuffer::new(2);
    assert_eq!(
        ClientHandshake::ClientCertificate(CertificateRef::new(&body)).encode(&mut small),
        Err(TlsError::EncodeError)
    );
    assert!(small.is_empty());
}

#[test]
fn certificate_verify_too_long_signature() {
    let m = CertificateVerify::new(SignatureScheme::Ed25519, vec![0; 0x10000]);
    let mut buf = CryptoBuffer::new(0x20000);
    assert_eq!(m.encode(&mut buf), Err(TlsError::EncodeError));
    assert!(buf.is_empty());
}

#[test]
fn client_certificate_encode() {
    let der = [0x30u8, 0x01, 0x00];
    let c = ClientCertificate::new(Certificate::X509(&der));
    let mut buf = CryptoBuffer::new(16);
    c.encode(&mut buf).unwrap();
    assert_eq!(buf.as_slice(), &[0, 0, 3, 0x30, 0x01, 0x00, 0, 0]);
    let c = ClientCertificate::new(Certificate::RawPublicKey(&der));
    let mut small = CryptoBuffer::new(7);
    assert_eq!(c.encode(&mut small), Err(TlsError::EncodeError));
    assert!(small.is_empty());
}

#[test]
fn client_certificate_verify_encode() {
    let sig = [5u8, 6, 7];
    let m = ClientCertificateVerify::new(&sig, SignatureScheme::RsaPssRsaeSha256);
    let mut buf = CryptoBuffer::new(5);
    m.encode(&mut buf).unwrap();
    assert_eq!(buf.as_slice(), &[0x08, 0x04, 5, 6, 7]);
}

#[test]
fn client_certificate_verify_partial_write() {
    let sig = [5u8, 6, 7];
    let m = ClientCertificateVerify::new(&sig, SignatureScheme::Ed448);
    let mut buf = CryptoBuffer::new(4);
    assert_eq!(m.encode(&mut buf), Err(TlsError::EncodeError));
    assert_eq!(buf.as_slice(), &[0x08, 0x08]);
    let mut tiny = CryptoBuffer::new(1);
    assert_eq!(m.encode(&mut tiny), Err(TlsError::EncodeError));
    assert!(tiny.is_empty());
}

#[test]
fn psk_binder_encode() {
    let b = PskBinder::new(vec![1, 2, 3]);
    let mut buf = CryptoBuffer::new(4);
    b.encode(&mut buf).unwrap();
    assert_eq!(buf.as_slice(), &[3, 1, 2, 3]);
    let mut partial = CryptoBuffer::new(2);
    assert_eq!(b.encode(&mut partial), Err(TlsError::EncodeError));
    assert_eq!(partial.as_slice(), &[3]);
    let mut none = CryptoBuffer::new(0);
    assert_eq!(b.encode(&mut none), Err(TlsError::EncodeError));
    assert!(none.is_empty());
}

#[test]
fn psk_binder_length_byte_wraps() {
    let b = PskBinder::new(vec![0; 300]);
    let mut buf = CryptoBuffer::new(400);
    b.encode(&mut buf).unwrap();
    assert_eq!(buf.as_slice()[0], 44);
    assert_eq!(buf.len(), 301);
}

#[test]
fn finalize_appends_binder_to_client_hello() {
    let body = [1u8];
    let hello = ClientHandshake::ClientHello(ClientHello::new(&body));
    let mut transcript = Transcript::new(HashAlgorithm::Sha256);
    transcript.update(b"hello");
    let mut ks = WriteKeySchedule::with_binder_key(b"k".to_vec());
    let mut provider = RustCryptoProvider::new();
    let mut buf = CryptoBuffer::new(64);
    hello
        .finalize(&mut buf, &mut transcript, &mut ks, Some(&mut provider))
        .unwrap();
    let hash = sha2::Sha256::digest(b"hello");
    let mut m = <hmac::Hmac<sha2::Sha256> as Mac>::new_from_slice(b"k").unwrap();
    m.update(&hash);
    let tag = m.finalize().into_bytes().to_vec();
    let mut expected = vec![32u8];
    expected.extend_from_slice(&tag);
    assert_eq!(buf.as_slice(), expected.as_slice());
    assert_eq!(transcript.finalize(), hash.to_vec());
}

#[test]
fn finalize_errors() {
    let body = [1u8];
    let hello = ClientHandshake::ClientHello(ClientHello::new(&body));
    let mut transcript = Transcript::new(HashAlgorithm::Sha256);
    let mut ks = WriteKeySchedule::new();
    let mut provider = RustCryptoProvider::new();
    let mut buf = CryptoBuffer::new(64);
    assert_eq!(
        hello.finalize(&mut buf, &mut transcript, &mut ks, None),
        Err(TlsError::InternalError)
    );
    assert_eq!(
        hello.finalize(&mut buf, &mut transcript, &mut ks, Some(&mut provider)),
        Err(TlsError::InvalidHandshake)
    );
    let mut keyed = WriteKeySchedule::with_binder_key(vec![1]);
    let mut small = CryptoBuffer::new(10);
    assert_eq!(
        hello.finalize(&mut small, &mut transcript, &mut keyed, Some(&mut provider)),
        Err(TlsError::EncodeError)
    );
    assert_eq!(small.as_slice(), &[32]);
    assert!(buf.is_empty());
}

#[test]
fn finalize_other_messages_write_nothing() {
    let fin = ClientHandshake::Finished(Finished::new(vec![1]));
    let mut transcript = Transcript::new(HashAlgorithm::Sha256);
    let mut ks = WriteKeySchedule::new();
    let mut buf = CryptoBuffer::new(8);
    assert_eq!(fin.finalize(&mut buf, &mut transcript, &mut ks, None), Ok(()));
    assert!(buf.is_empty());
}

#[test]
fn finalize_encrypted_absorbs_buffer() {
    let mut buf = CryptoBuffer::new(8);
    buf.extend_from_slice(b"xyz").unwrap();
    let mut transcript = Transcript::new(HashAlgorithm::Sha256);
    transcript.update(b"ab");
    ClientHandshake::finalize_encrypted(&mut buf, &mut transcript);
    assert_eq!(transcript.finalize(), sha2::Sha256::digest(b"abxyz").to_vec());
    assert_eq!(buf.as_slice(), b"xyz");
}

fn frame(code: u8, body: &[u8]) -> Vec<u8> {
    let n = body.len();
    let mut v = vec![(n >> 16) as u8, (n >> 8) as u8, n as u8, code];
    v.extend_from_slice(body);
    v
}

#[test]
fn server_handshake_read_each_type() {
    let server_types = [
        (HandshakeType::ServerHello, 2u8),
        (HandshakeType::NewSessionTicket, 4),
        (HandshakeType::EncryptedExtensions, 8),
        (HandshakeType::Certificate, 11),
        (HandshakeType::CertificateRequest, 13),
        (HandshakeType::CertificateVerify, 15),
    ];
    for (t, code) in server_types {
        let wire = frame(code, &[7, 8, 9]);
        let mut pb = ParseBuffer::new(&wire);
        let mut transcript = Transcript::new(HashAlgorithm::Sha256);
        let h = ServerHandshake::read(&mut pb, &mut transcript).unwrap();
        assert_eq!(h.handshake_type(), t);
        assert!(pb.is_empty());
        assert_eq!(transcript.finalize(), sha2::Sha256::digest(&wire).to_vec());
    }
}

#[test]
fn server_handshake_read_body() {
    let wire = frame(2, &[7, 8, 9]);
    let mut pb = ParseBuffer::new(&wire);
    let mut transcript = Transcript::new(HashAlgorithm::Sha256);
    match ServerHandshake::read(&mut pb, &mut transcript).unwrap() {
        ServerHandshake::ServerHello(m) => assert_eq!(m.body, &[7, 8, 9]),
        _ => panic!("expected ServerHello"),
    }
}

#[test]
fn server_handshake_read_finished() {
    let wire = frame(20, &[1, 2, 3, 4]);
    let mut pb = ParseBuffer::new(&wire);
    let mut transcript = Transcript::new(HashAlgorithm::Sha256);
    transcript.update(b"before");
    match ServerHandshake::read(&mut pb, &mut transcript).unwrap() {
        ServerHandshake::Finished(f) => {
            assert_eq!(f.verify, vec![1, 2, 3, 4]);
            let mut all = b"before".to_vec();
            all.extend_from_slice(&wire);
            assert_eq!(f.hash, Some(sha2::Sha256::digest(&all).to_vec()));
        }
        _ => panic!("expected Finished"),
    }
    assert_eq!(transcript.finalize(), sha2::Sha256::digest(b"before").to_vec());
}

#[test]
fn server_handshake_read_leaves_following_bytes() {
    let mut wire = frame(8, &[1]);
    wire.extend_from_slice(&[0xee, 0xff]);
    let mut pb = ParseBuffer::new(&wire);
    let mut transcript = Transcript::new(HashAlgorithm::Sha256);
    ServerHandshake::read(&mut pb, &mut transcript).unwrap();
    assert_eq!(pb.offset(), 5);
    assert_eq!(pb.remaining(), 2);
    assert_eq!(transcript.finalize(), sha2::Sha256::digest(&wire).to_vec());
}

#[test]
fn server_handshake_read_errors() {
    let cases: [(Vec<u8>, usize); 5] = [
        (vec![0, 0], 0),
        (vec![0, 0, 1], 3),
        (vec![0, 0, 0, 3], 4),
        (vec![0, 0, 0, 1], 4),
        (vec![0, 0, 5, 2, 1, 2], 4),
    ];
    for (wire, consumed) in cases {
        let mut pb = ParseBuffer::new(&wire);
        let mut transcript = Transcript::new(HashAlgorithm::Sha256);
        let r = ServerHandshake::read(&mut pb, &mut transcript);
        assert!(matches!(r, Err(TlsError::InvalidHandshake)));
        assert_eq!(pb.offset(), consumed);
        assert_eq!(transcript.finalize(), sha2::Sha256::digest(b"").to_vec());
    }
}
