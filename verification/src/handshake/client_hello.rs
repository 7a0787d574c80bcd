use vstd::prelude::*;

use crate::buffer::{writes_all_or_nothing, CryptoBuffer};
use crate::error::TlsError;

verus! {

/// The client's ClientHello message.
///
/// The message is kept as its encoded body, built from the configuration
/// before the handshake starts.
#[derive(Debug)]
pub struct ClientHello<'config> {
    pub body: &'config [u8],
}

impl<'config> ClientHello<'config> {
    /// A ClientHello with the given encoded body.
    pub fn new(body: &'config [u8]) -> (m: Self)
        ensures
            m.body@ == body@,
    {
        ClientHello { body }
    }

    /// Writes the message body.
    pub fn encode(&self, buf: &mut CryptoBuffer) -> (r: Result<(), TlsError>)
        ensures
            writes_all_or_nothing(*old(buf), *final(buf), self.body@, r),
    {
        buf.encode_bytes(self.body)
    }
}

} // verus!
