use vstd::prelude::*;

use crate::buffer::{writes_all_or_nothing, CryptoBuffer};
use crate::error::TlsError;
use crate::parse_buffer::ParseBuffer;
use crate::handshake::{body_consumed, read_body};

verus! {

/// A Certificate message, of the server or of the client.
///
/// The message is kept as its raw body: the certificate request context and
/// the certificate list as they appear on the wire.
#[derive(Debug)]
pub struct CertificateRef<'a> {
    pub body: &'a [u8],
}

impl<'a> CertificateRef<'a> {
    /// A Certificate message with the given body.
    pub fn new(body: &'a [u8]) -> (m: Self)
        ensures
            m.body@ == body@,
    {
        CertificateRef { body }
    }

    /// Reads the message body of `len` bytes, as its header announced.
    /// Fails with `InvalidHandshake`, consuming nothing, when fewer bytes
    /// are left.
    pub fn parse(buf: &mut ParseBuffer<'a>, len: u32) -> (r: Result<Self, TlsError>)
        ensures
            r is Ok <==> len <= old(buf).rest().len(),
            r matches Ok(m) ==> body_consumed(*old(buf), *final(buf), len as int, m.body@),
            r is Err ==> *final(buf) == *old(buf) && r == Err::<Self, TlsError>(
                TlsError::InvalidHandshake,
            ),
    {
        let body = read_body(buf, len)?;
        Ok(CertificateRef { body })
    }

    /// Writes the message body.
    pub fn encode(&self, buf: &mut CryptoBuffer) -> (r: Result<(), TlsError>)
        ensures
            writes_all_or_nothing(*old(buf), *final(buf), self.body@, r),
    {
        buf.encode_bytes(self.body)
    }
}

} // verus!
