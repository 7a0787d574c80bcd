use vstd::prelude::*;

use crate::buffer::CryptoBuffer;
use crate::error::TlsError;

verus! {

/// The one-byte length prefix of a binder: its length modulo 256.
pub open spec fn binder_len_byte(verify: Seq<u8>) -> u8 {
    (verify.len() % 256) as u8
}

/// The wire form of a PSK binder: its length byte, then its bytes.
pub open spec fn binder_encoding(verify: Seq<u8>) -> Seq<u8> {
    seq![binder_len_byte(verify)] + verify
}

/// The length byte of a binder is its length modulo 256, so a binder shorter
/// than 256 bytes is prefixed with its exact length; the encoding is that byte
/// followed by the binder, unchanged.
pub proof fn lemma_binder_encoding(verify: Seq<u8>)
    ensures
        binder_len_byte(verify) as int == verify.len() % 256,
        verify.len() < 256 ==> binder_encoding(verify)[0] as int == verify.len(),
        binder_encoding(verify).len() == verify.len() + 1,
        binder_encoding(verify).skip(1) == verify,
{
    assert(binder_encoding(verify).skip(1) =~= verify);
}

/// A PSK binder: the MAC that proves possession of a pre-shared key.
#[derive(Clone, Debug)]
pub struct PskBinder {
    pub verify: Vec<u8>,
}

impl PskBinder {
    /// A binder with the MAC `verify`.
    pub fn new(verify: Vec<u8>) -> (b: Self)
        ensures
            b.verify@ == verify@,
    {
        PskBinder { verify }
    }

    /// Writes the binder's length byte and then its bytes.
    ///
    /// When the length byte does not fit, nothing is written; when the length
    /// byte fits and the bytes do not, the length byte stays written. Both fail
    /// with `EncodeError`.
    pub fn encode(&self, buf: &mut CryptoBuffer) -> (r: Result<(), TlsError>)
        ensures
            final(buf).cap() == old(buf).cap(),
            r is Ok <==> old(buf).room() >= 1 + self.verify@.len(),
            r is Ok ==> final(buf)@ == old(buf)@ + binder_encoding(self.verify@),
            old(buf).room() < 1 ==> final(buf)@ == old(buf)@,
            1 <= old(buf).room() < 1 + self.verify@.len() ==> final(buf)@ == old(buf)@.push(
                binder_len_byte(self.verify@),
            ),
            r is Err ==> r == Err::<(), TlsError>(TlsError::EncodeError),
    {
        let len_byte = (self.verify.len() % 256) as u8;
        match buf.push(len_byte) {
            Ok(()) => {},
            Err(_) => {
                return Err(TlsError::EncodeError);
            },
        }
        match buf.extend_from_slice(self.verify.as_slice()) {
            Ok(()) => {
                assert(buf@ =~= old(buf)@ + binder_encoding(self.verify@));
                Ok(())
            },
            Err(_) => Err(TlsError::EncodeError),
        }
    }
}

} // verus!
