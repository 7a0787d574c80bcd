use vstd::prelude::*;

use crate::buffer::{writes_all_or_nothing, CryptoBuffer};
use crate::error::TlsError;
use crate::parse_buffer::ParseBuffer;
use crate::handshake::{body_consumed, read_body};

verus! {

/// A Finished message: its verify data, and, for a received one, the
/// transcript hash it is to be checked against.
#[derive(Debug, Clone)]
pub struct Finished {
    pub verify: Vec<u8>,
    pub hash: Option<Vec<u8>>,
}

impl Finished {
    /// A Finished message with the given verify data and no transcript hash.
    pub fn new(verify: Vec<u8>) -> (m: Self)
        ensures
            m.verify@ == verify@,
            m.hash is None,
    {
        Finished { verify, hash: None }
    }

    /// Reads `len` bytes of verify data, as the header announced; the
    /// transcript hash is left empty. Fails with `InvalidHandshake`,
    /// consuming nothing, when fewer bytes are left.
    pub fn parse(buf: &mut ParseBuffer, len: u32) -> (r: Result<Self, TlsError>)
        ensures
            r is Ok <==> len <= old(buf).rest().len(),
            r matches Ok(m) ==> body_consumed(*old(buf), *final(buf), len as int, m.verify@)
                && m.hash is None,
            r is Err ==> *final(buf) == *old(buf) && r == Err::<Self, TlsError>(
                TlsError::InvalidHandshake,
            ),
    {
        let body = read_body(buf, len)?;
        Ok(Finished { verify: vstd::slice::slice_to_vec(body), hash: None })
    }

    /// Writes the verify data.
    pub fn encode(&self, buf: &mut CryptoBuffer) -> (r: Result<(), TlsError>)
        ensures
            writes_all_or_nothing(*old(buf), *final(buf), self.verify@, r),
    {
        buf.encode_bytes(self.verify.as_slice())
    }
}

} // verus!
