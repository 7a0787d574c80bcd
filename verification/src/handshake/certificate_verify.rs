use vstd::prelude::*;

use crate::buffer::{be_u16, writes_all_or_nothing, CryptoBuffer};
use crate::error::TlsError;
use crate::parse_buffer::{be_value2, ParseBuffer};
use crate::handshake::{body_consumed, read_body};
use crate::signature_algorithms::{signature_scheme_code, SignatureScheme};

verus! {

/// A CertificateVerify message of the server.
///
/// The message is kept as its raw body: the signature scheme and the
/// signature as they appear on the wire.
#[derive(Debug)]
pub struct CertificateVerifyRef<'a> {
    pub body: &'a [u8],
}

impl<'a> CertificateVerifyRef<'a> {
    /// Reads the message body of `len` bytes, as its header announced.
    /// Fails with `InvalidHandshake`, consuming nothing, when fewer bytes
    /// are left.
    pub fn parse(buf: &mut ParseBuffer<'a>, len: u32) -> (r: Result<Self, TlsError>)
        ensures
            r is Ok <==> len <= old(buf).rest().len(),
            r matches Ok(m) ==> body_consumed(*old(buf), *final(buf), len as int, m.body@),
            r is Err ==> *final(buf) == *old(buf) && r == Err::<Self, TlsError>(
                TlsError::InvalidHandshake,
            ),
    {
        let body = read_body(buf, len)?;
        Ok(CertificateVerifyRef { body })
    }
}

proof fn lemma_be_u16_value(v: u16)
    ensures
        be_value2(be_u16(v)[0], be_u16(v)[1]) == v,
{
    let hi = v / 256;
    let lo = v % 256;
    assert(hi * 256 + lo == v) by (nonlinear_arith)
        requires
            hi == v / 256,
            lo == v % 256,
    ;
}

/// What an encoded CertificateVerify holds: the first two bytes denote the
/// scheme's code, the next two the signature's length, and the signature
/// follows, unchanged.
pub proof fn lemma_certificate_verify_encoding(m: CertificateVerify)
    requires
        m.spec_encodable(),
    ensures
        ({
            let e = m.spec_encoding();
            &&& e.len() == 4 + m.signature@.len()
            &&& be_value2(e[0], e[1]) == signature_scheme_code(m.signature_scheme)
            &&& be_value2(e[2], e[3]) == m.signature@.len()
            &&& e.skip(4) == m.signature@
        }),
{
    let e = m.spec_encoding();
    let n = m.signature@.len() as u16;
    lemma_be_u16_value(signature_scheme_code(m.signature_scheme));
    lemma_be_u16_value(n);
    assert(e[0] == be_u16(signature_scheme_code(m.signature_scheme))[0]);
    assert(e[1] == be_u16(signature_scheme_code(m.signature_scheme))[1]);
    assert(e[2] == be_u16(n)[0]);
    assert(e[3] == be_u16(n)[1]);
    assert(e.skip(4) =~= m.signature@);
}

/// The client's CertificateVerify message.
#[derive(Debug, Clone)]
pub struct CertificateVerify {
    pub signature_scheme: SignatureScheme,
    pub signature: Vec<u8>,
}

impl CertificateVerify {
    /// Whether the signature fits a 16-bit length prefix.
    pub open spec fn spec_encodable(&self) -> bool {
        self.signature@.len() <= 0xffff
    }

    /// The wire form: the scheme, the signature length, the signature.
    pub open spec fn spec_encoding(&self) -> Seq<u8> {
        be_u16(signature_scheme_code(self.signature_scheme)) + be_u16(
            self.signature@.len() as u16,
        ) + self.signature@
    }

    /// A CertificateVerify message.
    pub fn new(signature_scheme: SignatureScheme, signature: Vec<u8>) -> (m: Self)
        ensures
            m.signature_scheme == signature_scheme,
            m.signature@ == signature@,
    {
        CertificateVerify { signature_scheme, signature }
    }

    /// Writes the scheme, the 16-bit signature length and the signature.
    /// A signature longer than 65535 bytes, or a buffer too small for the
    /// whole message, fails with `EncodeError` and writes nothing.
    pub fn encode(&self, buf: &mut CryptoBuffer) -> (r: Result<(), TlsError>)
        ensures
            final(buf).cap() == old(buf).cap(),
            r is Ok <==> self.spec_encodable() && self.spec_encoding().len() <= old(
                buf,
            ).room(),
            r is Ok ==> final(buf)@ == old(buf)@ + self.spec_encoding(),
            r is Err ==> final(buf)@ == old(buf)@ && r == Err::<(), TlsError>(
                TlsError::EncodeError,
            ),
    {
        let n = self.signature.len();
        if n > 0xffff || buf.free_space() < 4 || buf.free_space() - 4 < n {
            return Err(TlsError::EncodeError);
        }
        let r1 = buf.push_u16(self.signature_scheme.as_u16());
        let r2 = buf.push_u16(n as u16);
        let r3 = buf.extend_from_slice(self.signature.as_slice());
        assert(r1 is Ok && r2 is Ok && r3 is Ok);
        assert(buf@ =~= old(buf)@ + self.spec_encoding());
        Ok(())
    }
}

} // verus!
