use vstd::prelude::*;

use crate::buffer::{be_u24, CryptoBuffer};
use crate::error::TlsError;

verus! {

/// A certificate of the client, in one of the two TLS 1.3 certificate types.
#[derive(Debug, Clone, Copy)]
pub enum Certificate<'a> {
    X509(&'a [u8]),
    RawPublicKey(&'a [u8]),
}

impl<'a> Certificate<'a> {
    /// The certificate's bytes (DER certificate or subject public key info).
    pub open spec fn spec_data(&self) -> Seq<u8> {
        match self {
            Certificate::X509(d) => d@,
            Certificate::RawPublicKey(d) => d@,
        }
    }

    /// Whether the data fits a 24-bit length prefix.
    pub open spec fn spec_encodable(&self) -> bool {
        self.spec_data().len() < 0x100_0000
    }

    /// The wire form of a certificate entry: the 24-bit data length, the data,
    /// and an empty extension list.
    pub open spec fn spec_encoding(&self) -> Seq<u8> {
        be_u24(self.spec_data().len() as u32) + self.spec_data() + seq![0u8, 0u8]
    }

    /// The certificate's bytes.
    pub fn data(&self) -> (d: &'a [u8])
        ensures
            d@ == self.spec_data(),
    {
        match self {
            Certificate::X509(d) => d,
            Certificate::RawPublicKey(d) => d,
        }
    }

    /// Writes the certificate as a certificate entry. Data of 2^24 bytes or
    /// more, or a buffer too small for the whole entry, fails with
    /// `EncodeError` and writes nothing.
    pub fn encode(&self, buf: &mut CryptoBuffer) -> (r: Result<(), TlsError>)
        ensures
            final(buf).cap() == old(buf).cap(),
            r is Ok <==> self.spec_encodable() && self.spec_encoding().len() <= old(
                buf,
            ).room(),
            r is Ok ==> final(buf)@ == old(buf)@ + self.spec_encoding(),
            r is Err ==> final(buf)@ == old(buf)@ && r == Err::<(), TlsError>(
                TlsError::EncodeError,
            ),
    {
        let d = self.data();
        let n = d.len();
        if n >= 0x100_0000 || buf.free_space() < 5 || buf.free_space() - 5 < n {
            return Err(TlsError::EncodeError);
        }
        let r1 = buf.push_u24(n as u32);
        let r2 = buf.extend_from_slice(d);
        let r3 = buf.push_u16(0);
        assert(r1 is Ok && r2 is Ok && r3 is Ok);
        assert(crate::buffer::be_u16(0) =~= seq![0u8, 0u8]);
        assert(buf@ =~= old(buf)@ + self.spec_encoding());
        Ok(())
    }
}

} // verus!
