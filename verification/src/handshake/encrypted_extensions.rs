use vstd::prelude::*;

use crate::error::TlsError;
use crate::parse_buffer::ParseBuffer;
use crate::handshake::{body_consumed, read_body};

verus! {

/// The server's EncryptedExtensions message.
///
/// The message is kept as its raw body: the bytes the handshake header
/// announced.
#[derive(Debug)]
pub struct EncryptedExtensions<'a> {
    pub body: &'a [u8],
}

impl<'a> EncryptedExtensions<'a> {
    /// Reads the message body of `len` bytes, as its header announced.
    /// Fails with `InvalidHandshake`, consuming nothing, when fewer bytes
    /// are left.
    pub fn parse(buf: &mut ParseBuffer<'a>, len: u32) -> (r: Result<Self, TlsError>)
        ensures
            r is Ok <==> len <= old(buf).rest().len(),
            r matches Ok(m) ==> body_consumed(*old(buf), *final(buf), len as int, m.body@),
            r is Err ==> *final(buf) == *old(buf) && r == Err::<Self, TlsError>(
                TlsError::InvalidHandshake,
            ),
    {
        let body = read_body(buf, len)?;
        Ok(EncryptedExtensions { body })
    }
}

} // verus!
