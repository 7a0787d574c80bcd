use vstd::prelude::*;

use crate::crypto::{
    hmac_sha256_tag, hmac_sha384_tag, sha256_digest, sha384_digest, RustCryptoProvider, Transcript,
};
use crate::error::TlsError;
use crate::handshake::binder::PskBinder;

verus! {

/// The write side of the key schedule, as far as the PSK binder needs it:
/// the finished key that binders are computed under, once a pre-shared key
/// has been set up.
#[derive(Debug)]
pub struct WriteKeySchedule {
    binder_key: Option<Vec<u8>>,
}

impl WriteKeySchedule {
    /// The key binders are computed under, if a pre-shared key is set up.
    pub closed spec fn spec_binder_key(&self) -> Option<Seq<u8>> {
        match &self.binder_key {
            Some(k) => Some(k@),
            None => None,
        }
    }

    /// A key schedule with no pre-shared key.
    pub fn new() -> (ks: Self)
        ensures
            ks.spec_binder_key() is None,
    {
        WriteKeySchedule { binder_key: None }
    }

    /// A key schedule whose binders are computed under `binder_key`.
    pub fn with_binder_key(binder_key: Vec<u8>) -> (ks: Self)
        ensures
            ks.spec_binder_key() == Some(binder_key@),
    {
        WriteKeySchedule { binder_key: Some(binder_key) }
    }

    /// The binder for the transcript so far: the HMAC, under the binder key,
    /// of the transcript's digest. Fails with `InternalError` when no
    /// pre-shared key is set up.
    pub fn create_psk_binder(
        &self,
        transcript: &Transcript,
        provider: &mut RustCryptoProvider,
    ) -> (r: Result<PskBinder, TlsError>)
        ensures
            r is Ok <==> self.spec_binder_key() is Some,
            r matches Ok(b) ==> b.verify@ == transcript.alg().spec_hmac(
                self.spec_binder_key()->0,
                transcript.alg().spec_digest(transcript@),
            ),
            r matches Ok(b) ==> (transcript.alg() is Sha256 ==> b.verify@ == hmac_sha256_tag(
                self.spec_binder_key()->0,
                sha256_digest(transcript@),
            )),
            r matches Ok(b) ==> (transcript.alg() is Sha384 ==> b.verify@ == hmac_sha384_tag(
                self.spec_binder_key()->0,
                sha384_digest(transcript@),
            )),
            r is Err ==> r == Err::<PskBinder, TlsError>(TlsError::InternalError),
    {
        match &self.binder_key {
            Some(key) => {
                let hash = transcript.finalize();
                let verify = provider.hmac(transcript.algorithm(), key.as_slice(), hash.as_slice());
                Ok(PskBinder::new(verify))
            },
            None => Err(TlsError::InternalError),
        }
    }
}

} // verus!
