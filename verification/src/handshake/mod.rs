use vstd::prelude::*;

use crate::buffer::{be_u16, be_u24, CryptoBuffer};
use crate::config::Certificate;
use crate::crypto::{RustCryptoProvider, Transcript};
use crate::error::{ParseError, TlsError};
use crate::key_schedule::WriteKeySchedule;
use crate::parse_buffer::{be_value3, ParseBuffer};
use crate::signature_algorithms::{signature_scheme_code, SignatureScheme};

use self::binder::{binder_encoding, binder_len_byte};
use self::certificate::CertificateRef;
use self::certificate_request::CertificateRequestRef;
use self::certificate_verify::{CertificateVerify, CertificateVerifyRef};
use self::client_hello::ClientHello;
use self::encrypted_extensions::EncryptedExtensions;
use self::finished::Finished;
use self::new_session_ticket::NewSessionTicket;
use self::server_hello::ServerHello;

pub mod binder;
pub mod certificate;
pub mod certificate_request;
pub mod certificate_verify;
pub mod client_hello;
pub mod encrypted_extensions;
pub mod finished;
pub mod new_session_ticket;
pub mod server_hello;

verus! {

/// The type byte of a TLS 1.3 handshake message.
#[derive(Debug, Clone, Copy, PartialEq, Eq, Structural)]
pub enum HandshakeType {
    ClientHello,
    ServerHello,
    NewSessionTicket,
    EndOfEarlyData,
    EncryptedExtensions,
    Certificate,
    CertificateRequest,
    CertificateVerify,
    Finished,
    KeyUpdate,
    MessageHash,
}

/// The wire code of a handshake type.
pub open spec fn handshake_type_code(t: HandshakeType) -> u8 {
    match t {
        HandshakeType::ClientHello => 1,
        HandshakeType::ServerHello => 2,
        HandshakeType::NewSessionTicket => 4,
        HandshakeType::EndOfEarlyData => 5,
        HandshakeType::EncryptedExtensions => 8,
        HandshakeType::Certificate => 11,
        HandshakeType::CertificateRequest => 13,
        HandshakeType::CertificateVerify => 15,
        HandshakeType::Finished => 20,
        HandshakeType::KeyUpdate => 24,
        HandshakeType::MessageHash => 254,
    }
}

/// The handshake type a wire code denotes, if any.
pub open spec fn handshake_type_from_code(b: u8) -> Option<HandshakeType> {
    if b == 1 {
        Some(HandshakeType::ClientHello)
    } else if b == 2 {
        Some(HandshakeType::ServerHello)
    } else if b == 4 {
        Some(HandshakeType::NewSessionTicket)
    } else if b == 5 {
        Some(HandshakeType::EndOfEarlyData)
    } else if b == 8 {
        Some(HandshakeType::EncryptedExtensions)
    } else if b == 11 {
        Some(HandshakeType::Certificate)
    } else if b == 13 {
        Some(HandshakeType::CertificateRequest)
    } else if b == 15 {
        Some(HandshakeType::CertificateVerify)
    } else if b == 20 {
        Some(HandshakeType::Finished)
    } else if b == 24 {
        Some(HandshakeType::KeyUpdate)
    } else if b == 254 {
        Some(HandshakeType::MessageHash)
    } else {
        None
    }
}

/// Decoding a handshake type's wire code gives that type back.
pub proof fn lemma_handshake_type_code_roundtrip(t: HandshakeType)
    ensures
        handshake_type_from_code(handshake_type_code(t)) == Some(t),
{
}

/// A wire code that decodes to a handshake type is that type's code, so no
/// two codes denote the same type.
pub proof fn lemma_handshake_type_code_unique(b: u8)
    ensures
        handshake_type_from_code(b) matches Some(t) ==> handshake_type_code(t) == b,
{
}

impl HandshakeType {
    /// The wire code of this handshake type.
    pub fn as_u8(self) -> (b: u8)
        ensures
            b == handshake_type_code(self),
    {
        match self {
            HandshakeType::ClientHello => 1,
            HandshakeType::ServerHello => 2,
            HandshakeType::NewSessionTicket => 4,
            HandshakeType::EndOfEarlyData => 5,
            HandshakeType::EncryptedExtensions => 8,
            HandshakeType::Certificate => 11,
            HandshakeType::CertificateRequest => 13,
            HandshakeType::CertificateVerify => 15,
            HandshakeType::Finished => 20,
            HandshakeType::KeyUpdate => 24,
            HandshakeType::MessageHash => 254,
        }
    }

    /// Reads a handshake type byte.
    ///
    /// Fails with `InsufficientBytes` when no byte is left (consuming nothing)
    /// and with `InvalidData` when the byte is no known code (the byte is
    /// consumed).
    pub fn parse(buf: &mut ParseBuffer) -> (r: Result<Self, ParseError>)
        ensures
            final(buf).data() == old(buf).data(),
            old(buf).rest().len() == 0 ==> *final(buf) == *old(buf) && r == Err::<
                HandshakeType,
                ParseError,
            >(ParseError::InsufficientBytes),
            old(buf).rest().len() > 0 ==> {
                &&& final(buf).pos() == old(buf).pos() + 1
                &&& final(buf).rest() == old(buf).rest().skip(1)
                &&& r == match handshake_type_from_code(old(buf).rest()[0]) {
                    Some(t) => Ok(t),
                    None => Err(ParseError::InvalidData),
                }
            },
    {
        let b = buf.read_u8()?;
        if b == 1 {
            Ok(HandshakeType::ClientHello)
        } else if b == 2 {
            Ok(HandshakeType::ServerHello)
        } else if b == 4 {
            Ok(HandshakeType::NewSessionTicket)
        } else if b == 5 {
            Ok(HandshakeType::EndOfEarlyData)
        } else if b == 8 {
            Ok(HandshakeType::EncryptedExtensions)
        } else if b == 11 {
            Ok(HandshakeType::Certificate)
        } else if b == 13 {
            Ok(HandshakeType::CertificateRequest)
        } else if b == 15 {
            Ok(HandshakeType::CertificateVerify)
        } else if b == 20 {
            Ok(HandshakeType::Finished)
        } else if b == 24 {
            Ok(HandshakeType::KeyUpdate)
        } else if b == 254 {
            Ok(HandshakeType::MessageHash)
        } else {
            Err(ParseError::InvalidData)
        }
    }

    /// Writes the type's wire code; fails with `EncodeError`, writing
    /// nothing, when the buffer is full.
    pub fn encode(self, buf: &mut CryptoBuffer) -> (r: Result<(), TlsError>)
        ensures
            final(buf).cap() == old(buf).cap(),
            r is Ok <==> old(buf).room() >= 1,
            r is Ok ==> final(buf)@ == old(buf)@.push(handshake_type_code(self)),
            r is Err ==> final(buf)@ == old(buf)@ && r == Err::<(), TlsError>(
                TlsError::EncodeError,
            ),
    {
        match buf.push(self.as_u8()) {
            Ok(()) => Ok(()),
            Err(_) => Err(TlsError::EncodeError),
        }
    }
}

/// A handshake message the client sends.
#[derive(Debug)]
pub enum ClientHandshake<'config, 'a> {
    ClientHello(ClientHello<'config>),
    ClientCertificate(CertificateRef<'a>),
    ClientCertificateVerify(CertificateVerify),
    Finished(Finished),
}

impl<'config, 'a> ClientHandshake<'config, 'a> {
    /// The handshake type of this message.
    pub open spec fn spec_handshake_type(&self) -> HandshakeType {
        match self {
            ClientHandshake::ClientHello(_) => HandshakeType::ClientHello,
            ClientHandshake::Finished(_) => HandshakeType::Finished,
            ClientHandshake::ClientCertificate(_) => HandshakeType::Certificate,
            ClientHandshake::ClientCertificateVerify(_) => HandshakeType::CertificateVerify,
        }
    }

    /// Whether the message can be encoded at all, whatever the room.
    pub open spec fn spec_encodable(&self) -> bool {
        match self {
            ClientHandshake::ClientCertificateVerify(m) => m.spec_encodable(),
            _ => true,
        }
    }

    /// The wire form of the message body.
    pub open spec fn spec_encoding(&self) -> Seq<u8> {
        match self {
            ClientHandshake::ClientHello(m) => m.body@,
            ClientHandshake::ClientCertificate(m) => m.body@,
            ClientHandshake::ClientCertificateVerify(m) => m.spec_encoding(),
            ClientHandshake::Finished(m) => m.verify@,
        }
    }

    /// The handshake type of this message.
    pub fn handshake_type(&self) -> (t: HandshakeType)
        ensures
            t == self.spec_handshake_type(),
    {
        match self {
            ClientHandshake::ClientHello(_) => HandshakeType::ClientHello,
            ClientHandshake::Finished(_) => HandshakeType::Finished,
            ClientHandshake::ClientCertificate(_) => HandshakeType::Certificate,
            ClientHandshake::ClientCertificateVerify(_) => HandshakeType::CertificateVerify,
        }
    }

    /// Writes the message body. When it cannot be encoded or does not fit,
    /// fails with `EncodeError` and writes nothing.
    pub fn encode(&self, buf: &mut CryptoBuffer) -> (r: Result<(), TlsError>)
        ensures
            final(buf).cap() == old(buf).cap(),
            r is Ok <==> self.spec_encodable() && self.spec_encoding().len() <= old(
                buf,
            ).room(),
            r is Ok ==> final(buf)@ == old(buf)@ + self.spec_encoding(),
            r is Err ==> final(buf)@ == old(buf)@ && r == Err::<(), TlsError>(
                TlsError::EncodeError,
            ),
    {
        match self {
            ClientHandshake::ClientHello(inner) => inner.encode(buf),
            ClientHandshake::Finished(inner) => inner.encode(buf),
            ClientHandshake::ClientCertificate(inner) => inner.encode(buf),
            ClientHandshake::ClientCertificateVerify(inner) => inner.encode(buf),
        }
    }

    /// Appends the PSK binder to an encoded ClientHello; other messages need
    /// no finishing.
    ///
    /// For a ClientHello, a missing provider fails with `InternalError` and a
    /// binder that cannot be computed with `InvalidHandshake`, writing
    /// nothing; otherwise the binder is encoded as `PskBinder::encode` does.
    /// The transcript and the key schedule are left as they are.
    pub fn finalize(
        &self,
        buf: &mut CryptoBuffer,
        transcript: &mut Transcript,
        write_key_schedule: &mut WriteKeySchedule,
        provider: Option<&mut RustCryptoProvider>,
    ) -> (r: Result<(), TlsError>)
        ensures
            final(buf).cap() == old(buf).cap(),
            final(transcript)@ == old(transcript)@,
            final(transcript).alg() == old(transcript).alg(),
            final(write_key_schedule).spec_binder_key() == old(write_key_schedule).spec_binder_key(),
            !(self is ClientHello) ==> r is Ok && final(buf)@ == old(buf)@,
            self is ClientHello && provider is None ==> final(buf)@ == old(buf)@ && r == Err::<
                (),
                TlsError,
            >(TlsError::InternalError),
            self is ClientHello && provider is Some && old(write_key_schedule).spec_binder_key() is None
                ==> final(buf)@ == old(buf)@ && r == Err::<(), TlsError>(
                TlsError::InvalidHandshake,
            ),
            self is ClientHello && provider is Some && old(write_key_schedule).spec_binder_key() is Some
                ==> ({
                let verify = old(transcript).alg().spec_hmac(
                    old(write_key_schedule).spec_binder_key()->0,
                    old(transcript).alg().spec_digest(old(transcript)@),
                );
                &&& (r is Ok <==> old(buf).room() >= 1 + verify.len())
                &&& r is Ok ==> final(buf)@ == old(buf)@ + binder_encoding(verify)
                &&& old(buf).room() < 1 ==> final(buf)@ == old(buf)@
                &&& 1 <= old(buf).room() < 1 + verify.len() ==> final(buf)@ == old(buf)@.push(
                    binder_len_byte(verify),
                )
                &&& r is Err ==> r == Err::<(), TlsError>(TlsError::EncodeError)
            }),
    {
        if let ClientHandshake::ClientHello(_hello) = self {
            let provider = match provider {
                Some(p) => p,
                None => {
                    return Err(TlsError::InternalError);
                },
            };
            let psk_binder = match write_key_schedule.create_psk_binder(transcript, provider) {
                Ok(b) => b,
                Err(_) => {
                    return Err(TlsError::InvalidHandshake);
                },
            };
            psk_binder.encode(buf)?;
        }
        Ok(())
    }

    /// Absorbs the encoded message in `buf` into the transcript.
    pub fn finalize_encrypted(buf: &mut CryptoBuffer, transcript: &mut Transcript)
        ensures
            final(buf)@ == old(buf)@,
            final(buf).cap() == old(buf).cap(),
            final(transcript)@ == old(transcript)@ + old(buf)@,
            final(transcript).alg() == old(transcript).alg(),
    {
        let mut transcript_clone = transcript.fork();
        transcript_clone.update(buf.as_slice());
        *transcript = transcript_clone;
    }
}

/// Whether the server sends handshake messages of type `t`.
pub open spec fn is_server_handshake_type(t: HandshakeType) -> bool {
    ||| t is ServerHello
    ||| t is EncryptedExtensions
    ||| t is Certificate
    ||| t is CertificateRequest
    ||| t is CertificateVerify
    ||| t is Finished
    ||| t is NewSessionTicket
}

/// The type and announced body length of a server handshake message at the
/// start of `d`: a 24-bit length, then the type byte. `None` when `d` is too
/// short for both or the type is none the server sends.
pub open spec fn server_handshake_header(d: Seq<u8>) -> Option<(HandshakeType, int)> {
    if d.len() >= 4 {
        match handshake_type_from_code(d[3]) {
            Some(t) => if is_server_handshake_type(t) {
                Some((t, be_value3(d[0], d[1], d[2])))
            } else {
                None
            },
            None => None,
        }
    } else {
        None
    }
}

/// Whether a whole server handshake message stands at the start of `d`.
pub open spec fn server_handshake_readable(d: Seq<u8>) -> bool {
    match server_handshake_header(d) {
        Some((_, len)) => 4 + len <= d.len(),
        None => false,
    }
}

/// How many bytes a failed read of a server handshake message consumes:
/// the length field if it was there, and the type byte if it was there.
pub open spec fn server_handshake_error_consumed(d: Seq<u8>) -> int {
    if d.len() < 3 {
        0
    } else if d.len() < 4 {
        3
    } else {
        4
    }
}

/// A server handshake message on the wire: the 24-bit body length, the type
/// byte, then the body.
pub open spec fn server_handshake_frame(t: HandshakeType, body: Seq<u8>) -> Seq<u8> {
    be_u24(body.len() as u32) + seq![handshake_type_code(t)] + body
}

proof fn lemma_be_u24_value(n: u32)
    requires
        n < 0x100_0000,
    ensures
        be_value3(be_u24(n)[0], be_u24(n)[1], be_u24(n)[2]) == n,
{
    let b0 = (n / 65536) % 256;
    let b1 = (n / 256) % 256;
    let b2 = n % 256;
    assert(b0 * 65536 + b1 * 256 + b2 == n) by (nonlinear_arith)
        requires
            n < 0x100_0000,
            b0 == (n / 65536) % 256,
            b1 == (n / 256) % 256,
            b2 == n % 256,
    ;
}

/// What a read of a server handshake message gives back: a framed message of
/// a type the server sends, followed by anything, reads as that type and
/// body and leaves exactly what followed.
pub proof fn lemma_server_handshake_frame_read(t: HandshakeType, body: Seq<u8>, rest: Seq<u8>)
    requires
        is_server_handshake_type(t),
        body.len() < 0x100_0000,
    ensures
        ({
            let d = server_handshake_frame(t, body) + rest;
            &&& server_handshake_header(d) == Some((t, body.len() as int))
            &&& server_handshake_readable(d)
            &&& d.subrange(4, 4 + body.len() as int) == body
            &&& d.skip(4 + body.len() as int) == rest
        }),
{
    let n = body.len() as u32;
    let d = server_handshake_frame(t, body) + rest;
    lemma_be_u24_value(n);
    assert(d[0] == be_u24(n)[0] && d[1] == be_u24(n)[1] && d[2] == be_u24(n)[2]);
    assert(d[3] == handshake_type_code(t));
    lemma_handshake_type_code_roundtrip(t);
    assert(d.subrange(4, 4 + body.len() as int) =~= body);
    assert(d.skip(4 + body.len() as int) =~= rest);
}

/// Each server message reports the handshake type it is named after: its
/// type's wire code is the code of that message in RFC 8446, and it is one of
/// the types the server sends.
pub proof fn lemma_server_handshake_type_codes(h: ServerHandshake)
    ensures
        is_server_handshake_type(h.spec_handshake_type()),
        h is ServerHello ==> handshake_type_code(h.spec_handshake_type()) == 2,
        h is NewSessionTicket ==> handshake_type_code(h.spec_handshake_type()) == 4,
        h is EncryptedExtensions ==> handshake_type_code(h.spec_handshake_type()) == 8,
        h is Certificate ==> handshake_type_code(h.spec_handshake_type()) == 11,
        h is CertificateRequest ==> handshake_type_code(h.spec_handshake_type()) == 13,
        h is CertificateVerify ==> handshake_type_code(h.spec_handshake_type()) == 15,
        h is Finished ==> handshake_type_code(h.spec_handshake_type()) == 20,
{
}

/// Each client message reports the handshake type it is named after, by its
/// RFC 8446 wire code.
pub proof fn lemma_client_handshake_type_codes(h: ClientHandshake)
    ensures
        h is ClientHello ==> handshake_type_code(h.spec_handshake_type()) == 1,
        h is ClientCertificate ==> handshake_type_code(h.spec_handshake_type()) == 11,
        h is ClientCertificateVerify ==> handshake_type_code(h.spec_handshake_type()) == 15,
        h is Finished ==> handshake_type_code(h.spec_handshake_type()) == 20,
{
}

/// A handshake message the server sends.
#[derive(Debug)]
pub enum ServerHandshake<'a> {
    ServerHello(ServerHello<'a>),
    EncryptedExtensions(EncryptedExtensions<'a>),
    Certificate(CertificateRef<'a>),
    CertificateVerify(CertificateVerifyRef<'a>),
    CertificateRequest(CertificateRequestRef<'a>),
    Finished(Finished),
    NewSessionTicket(NewSessionTicket<'a>),
}

impl<'a> ServerHandshake<'a> {
    /// The handshake type of this message.
    pub open spec fn spec_handshake_type(&self) -> HandshakeType {
        match self {
            ServerHandshake::ServerHello(_) => HandshakeType::ServerHello,
            ServerHandshake::EncryptedExtensions(_) => HandshakeType::EncryptedExtensions,
            ServerHandshake::Certificate(_) => HandshakeType::Certificate,
            ServerHandshake::CertificateRequest(_) => HandshakeType::CertificateRequest,
            ServerHandshake::CertificateVerify(_) => HandshakeType::CertificateVerify,
            ServerHandshake::Finished(_) => HandshakeType::Finished,
            ServerHandshake::NewSessionTicket(_) => HandshakeType::NewSessionTicket,
        }
    }

    /// The message body (for Finished, its verify data).
    pub open spec fn spec_body(&self) -> Seq<u8> {
        match self {
            ServerHandshake::ServerHello(m) => m.body@,
            ServerHandshake::EncryptedExtensions(m) => m.body@,
            ServerHandshake::Certificate(m) => m.body@,
            ServerHandshake::CertificateRequest(m) => m.body@,
            ServerHandshake::CertificateVerify(m) => m.body@,
            ServerHandshake::Finished(m) => m.verify@,
            ServerHandshake::NewSessionTicket(m) => m.body@,
        }
    }

    /// The handshake type of this message.
    pub fn handshake_type(&self) -> (t: HandshakeType)
        ensures
            t == self.spec_handshake_type(),
    {
        match self {
            ServerHandshake::ServerHello(_) => HandshakeType::ServerHello,
            ServerHandshake::EncryptedExtensions(_) => HandshakeType::EncryptedExtensions,
            ServerHandshake::Certificate(_) => HandshakeType::Certificate,
            ServerHandshake::CertificateRequest(_) => HandshakeType::CertificateRequest,
            ServerHandshake::CertificateVerify(_) => HandshakeType::CertificateVerify,
            ServerHandshake::Finished(_) => HandshakeType::Finished,
            ServerHandshake::NewSessionTicket(_) => HandshakeType::NewSessionTicket,
        }
    }

    /// Reads one server handshake message: its 24-bit body length, its type
    /// byte, then its body; every failure is `InvalidHandshake`.
    ///
    /// A Finished message gets the digest of the transcript extended with the
    /// whole underlying buffer, and the transcript itself is left as it is;
    /// any other message has the whole underlying buffer absorbed into the
    /// transcript.
    pub fn read(buf: &mut ParseBuffer<'a>, digest: &mut Transcript) -> (r: Result<
        ServerHandshake<'a>,
        TlsError,
    >)
        ensures
            final(buf).data() == old(buf).data(),
            final(digest).alg() == old(digest).alg(),
            r is Ok <==> server_handshake_readable(old(buf).rest()),
            r matches Ok(h) ==> {
                let (t, len) = server_handshake_header(old(buf).rest())->0;
                &&& h.spec_handshake_type() == t
                &&& h.spec_body() == old(buf).rest().subrange(4, 4 + len)
                &&& final(buf).pos() == old(buf).pos() + 4 + len
                &&& final(buf).rest() == old(buf).rest().skip(4 + len)
            },
            r matches Ok(h) ==> {
                let code = old(buf).rest()[3];
                &&& (h is ServerHello <==> code == 2)
                &&& (h is NewSessionTicket <==> code == 4)
                &&& (h is EncryptedExtensions <==> code == 8)
                &&& (h is Certificate <==> code == 11)
                &&& (h is CertificateRequest <==> code == 13)
                &&& (h is CertificateVerify <==> code == 15)
                &&& (h is Finished <==> code == 20)
            },
            r matches Ok(h) ==> (h matches ServerHandshake::Finished(f) ==> {
                &&& final(digest)@ == old(digest)@
                &&& f.hash matches Some(v) && v@ == old(digest).alg().spec_digest(
                    old(digest)@ + old(buf).data(),
                )
            }),
            r matches Ok(h) ==> (!(h is Finished) ==> final(digest)@ == old(digest)@ + old(
                buf,
            ).data()),
            r is Err ==> {
                &&& final(digest)@ == old(digest)@
                &&& final(buf).pos() == old(buf).pos() + server_handshake_error_consumed(
                    old(buf).rest(),
                )
                &&& r == Err::<ServerHandshake<'a>, TlsError>(TlsError::InvalidHandshake)
            },
    {
        let content_length = match buf.read_u24() {
            Ok(v) => v,
            Err(_) => {
                return Err(TlsError::InvalidHandshake);
            },
        };
        let handshake_type = match HandshakeType::parse(buf) {
            Ok(t) => t,
            Err(_) => {
                return Err(TlsError::InvalidHandshake);
            },
        };

        let mut handshake = match handshake_type {
            HandshakeType::ServerHello => ServerHandshake::ServerHello(
                ServerHello::parse(buf, content_length)?,
            ),
            HandshakeType::NewSessionTicket => ServerHandshake::NewSessionTicket(
                NewSessionTicket::parse(buf, content_length)?,
            ),
            HandshakeType::EncryptedExtensions => ServerHandshake::EncryptedExtensions(
                EncryptedExtensions::parse(buf, content_length)?,
            ),
            HandshakeType::Certificate => ServerHandshake::Certificate(
                CertificateRef::parse(buf, content_length)?,
            ),
            HandshakeType::CertificateRequest => ServerHandshake::CertificateRequest(
                CertificateRequestRef::parse(buf, content_length)?,
            ),
            HandshakeType::CertificateVerify => ServerHandshake::CertificateVerify(
                CertificateVerifyRef::parse(buf, content_length)?,
            ),
            HandshakeType::Finished => ServerHandshake::Finished(
                Finished::parse(buf, content_length)?,
            ),
            _ => {
                return Err(TlsError::InvalidHandshake);
            },
        };

        if let ServerHandshake::Finished(finished) = &mut handshake {
            let mut hash = digest.fork();
            hash.update(buf.as_slice());
            let out = hash.finalize();
            finished.hash = Some(out);
        } else {
            digest.update(buf.as_slice());
        }

        Ok(handshake)
    }
}

/// The client's certificate, as sent in answer to a certificate request.
#[derive(Debug)]
pub struct ClientCertificate<'a> {
    pub certificate: Certificate<'a>,
}

impl<'a> ClientCertificate<'a> {
    /// Wraps `certificate`.
    pub fn new(certificate: Certificate<'a>) -> (c: Self)
        ensures
            c.certificate == certificate,
    {
        Self { certificate }
    }

    /// Writes the certificate as `Certificate::encode` does.
    pub fn encode(&self, buf: &mut CryptoBuffer) -> (r: Result<(), TlsError>)
        ensures
            final(buf).cap() == old(buf).cap(),
            r is Ok <==> self.certificate.spec_encodable()
                && self.certificate.spec_encoding().len() <= old(buf).room(),
            r is Ok ==> final(buf)@ == old(buf)@ + self.certificate.spec_encoding(),
            r is Err ==> final(buf)@ == old(buf)@ && r == Err::<(), TlsError>(
                TlsError::EncodeError,
            ),
    {
        self.certificate.encode(buf)
    }
}

/// The client's signature over the transcript, with its scheme.
#[derive(Debug)]
pub struct ClientCertificateVerify<'a> {
    pub signature: &'a [u8],
    pub signature_scheme: SignatureScheme,
}

impl<'a> ClientCertificateVerify<'a> {
    /// A signature made with `signature_scheme`.
    pub fn new(signature: &'a [u8], signature_scheme: SignatureScheme) -> (c: Self)
        ensures
            c.signature@ == signature@,
            c.signature_scheme == signature_scheme,
    {
        Self { signature, signature_scheme }
    }

    /// Writes the scheme's code and then the signature.
    ///
    /// When the code does not fit, nothing is written; when the code fits and
    /// the signature does not, the code stays written. Both fail with
    /// `EncodeError`.
    pub fn encode(&self, buf: &mut CryptoBuffer) -> (r: Result<(), TlsError>)
        ensures
            final(buf).cap() == old(buf).cap(),
            r is Ok <==> old(buf).room() >= 2 + self.signature@.len(),
            r is Ok ==> final(buf)@ == old(buf)@ + be_u16(
                signature_scheme_code(self.signature_scheme),
            ) + self.signature@,
            old(buf).room() < 2 ==> final(buf)@ == old(buf)@,
            2 <= old(buf).room() < 2 + self.signature@.len() ==> final(buf)@ == old(buf)@
                + be_u16(signature_scheme_code(self.signature_scheme)),
            r is Err ==> r == Err::<(), TlsError>(TlsError::EncodeError),
    {
        match buf.push_u16(self.signature_scheme.as_u16()) {
            Ok(()) => {},
            Err(_) => {
                return Err(TlsError::EncodeError);
            },
        }
        match buf.extend_from_slice(self.signature) {
            Ok(()) => Ok(()),
            Err(_) => Err(TlsError::EncodeError),
        }
    }
}

/// `after` is `before` with the next `len` bytes consumed, and `body` is
/// those bytes.
pub open spec fn body_consumed(before: ParseBuffer, after: ParseBuffer, len: int, body: Seq<u8>) -> bool {
    &&& after.data() == before.data()
    &&& after.pos() == before.pos() + len
    &&& after.rest() == before.rest().skip(len)
    &&& body == before.rest().take(len)
}

/// Reads the `len` bytes of a handshake message body.
pub(crate) fn read_body<'a>(buf: &mut ParseBuffer<'a>, len: u32) -> (r: Result<&'a [u8], TlsError>)
    ensures
        r is Ok <==> len <= old(buf).rest().len(),
        r matches Ok(b) ==> body_consumed(*old(buf), *final(buf), len as int, b@),
        r is Err ==> *final(buf) == *old(buf) && r == Err::<&'a [u8], TlsError>(
            TlsError::InvalidHandshake,
        ),
{
    match buf.slice(len as usize) {
        Ok(sub) => Ok(sub.as_slice()),
        Err(_) => Err(TlsError::InvalidHandshake),
    }
}

} // verus!
