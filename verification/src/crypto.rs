use vstd::prelude::*;

use hmac::Mac;

verus! {

/// The SHA-256 digest of `data`, as the `sha2` crate computes it.
pub uninterp spec fn sha256_digest(data: Seq<u8>) -> Seq<u8>;

/// The SHA-384 digest of `data`, as the `sha2` crate computes it.
pub uninterp spec fn sha384_digest(data: Seq<u8>) -> Seq<u8>;

/// HMAC-SHA-256 of `data` under `key`, as the `hmac` crate computes it.
pub uninterp spec fn hmac_sha256_tag(key: Seq<u8>, data: Seq<u8>) -> Seq<u8>;

/// HMAC-SHA-384 of `data` under `key`, as the `hmac` crate computes it.
pub uninterp spec fn hmac_sha384_tag(key: Seq<u8>, data: Seq<u8>) -> Seq<u8>;

/// Calls `<sha2::Sha256 as digest::Digest>::digest`.
/// Trusted: the result is the named SHA-256 digest of `data`, and it is 32
/// bytes long (the output size of `Sha256`).
#[verifier::external_body]
fn sha256(data: &[u8]) -> (r: Vec<u8>)
    ensures
        r@ == sha256_digest(data@),
        r@.len() == 32,
{
    <sha2::Sha256 as digest::Digest>::digest(data).to_vec()
}

/// Calls `<sha2::Sha384 as digest::Digest>::digest`.
/// Trusted: the result is the named SHA-384 digest of `data`, and it is 48
/// bytes long (the output size of `Sha384`).
#[verifier::external_body]
fn sha384(data: &[u8]) -> (r: Vec<u8>)
    ensures
        r@ == sha384_digest(data@),
        r@.len() == 48,
{
    <sha2::Sha384 as digest::Digest>::digest(data).to_vec()
}

/// Calls `hmac::Hmac::<sha2::Sha256>::new_from_slice`, `Mac::update` and
/// `Mac::finalize`. Trusted: the result is the named HMAC-SHA-256 tag of
/// `data` under `key`, 32 bytes long. `new_from_slice` of HMAC accepts keys of
/// every length (its source returns `Ok` unconditionally), so the error arm is
/// never taken.
#[verifier::external_body]
fn hmac_sha256(key: &[u8], data: &[u8]) -> (r: Vec<u8>)
    ensures
        r@ == hmac_sha256_tag(key@, data@),
        r@.len() == 32,
{
    match <hmac::Hmac<sha2::Sha256> as Mac>::new_from_slice(key) {
        Ok(mac) => mac.chain_update(data).finalize().into_bytes().to_vec(),
        Err(_) => Vec::new(),
    }
}

/// Calls `hmac::Hmac::<sha2::Sha384>::new_from_slice`, `Mac::update` and
/// `Mac::finalize`. Trusted: the result is the named HMAC-SHA-384 tag of
/// `data` under `key`, 48 bytes long. `new_from_slice` of HMAC accepts keys of
/// every length, so the error arm is never taken.
#[verifier::external_body]
fn hmac_sha384(key: &[u8], data: &[u8]) -> (r: Vec<u8>)
    ensures
        r@ == hmac_sha384_tag(key@, data@),
        r@.len() == 48,
{
    match <hmac::Hmac<sha2::Sha384> as Mac>::new_from_slice(key) {
        Ok(mac) => mac.chain_update(data).finalize().into_bytes().to_vec(),
        Err(_) => Vec::new(),
    }
}

/// The hash function of a cipher suite.
#[derive(Debug, Clone, Copy, PartialEq, Eq, Structural)]
pub enum HashAlgorithm {
    Sha256,
    Sha384,
}

impl HashAlgorithm {
    /// The length in bytes of a digest of this algorithm.
    pub open spec fn spec_output_len(self) -> nat {
        match self {
            HashAlgorithm::Sha256 => 32,
            HashAlgorithm::Sha384 => 48,
        }
    }

    /// The digest of `data` under this algorithm.
    pub open spec fn spec_digest(self, data: Seq<u8>) -> Seq<u8> {
        match self {
            HashAlgorithm::Sha256 => sha256_digest(data),
            HashAlgorithm::Sha384 => sha384_digest(data),
        }
    }

    /// The HMAC of `data` under `key` with this algorithm.
    pub open spec fn spec_hmac(self, key: Seq<u8>, data: Seq<u8>) -> Seq<u8> {
        match self {
            HashAlgorithm::Sha256 => hmac_sha256_tag(key, data),
            HashAlgorithm::Sha384 => hmac_sha384_tag(key, data),
        }
    }

    /// The length in bytes of a digest of this algorithm.
    pub fn output_len(self) -> (n: usize)
        ensures
            n == self.spec_output_len(),
    {
        match self {
            HashAlgorithm::Sha256 => 32,
            HashAlgorithm::Sha384 => 48,
        }
    }

    /// Hashes `data` in one go.
    pub fn digest(self, data: &[u8]) -> (r: Vec<u8>)
        ensures
            r@ == self.spec_digest(data@),
            r@.len() == self.spec_output_len(),
            self is Sha256 ==> r@ == sha256_digest(data@),
            self is Sha384 ==> r@ == sha384_digest(data@),
    {
        match self {
            HashAlgorithm::Sha256 => sha256(data),
            HashAlgorithm::Sha384 => sha384(data),
        }
    }
}

/// The digest and HMAC of an algorithm are those of its hash function, over
/// the whole data and under the whole key, whatever their lengths.
pub proof fn lemma_algorithm_primitives(key: Seq<u8>, data: Seq<u8>)
    ensures
        HashAlgorithm::Sha256.spec_digest(data) == sha256_digest(data),
        HashAlgorithm::Sha384.spec_digest(data) == sha384_digest(data),
        HashAlgorithm::Sha256.spec_hmac(key, data) == hmac_sha256_tag(key, data),
        HashAlgorithm::Sha384.spec_hmac(key, data) == hmac_sha384_tag(key, data),
{
}

/// The running hash of the handshake transcript.
///
/// Its view is every byte absorbed so far; the digest it yields is the digest
/// of exactly those bytes under `alg()`.
#[derive(Debug)]
pub struct Transcript {
    algorithm: HashAlgorithm,
    absorbed: Vec<u8>,
}

impl View for Transcript {
    type V = Seq<u8>;

    closed spec fn view(&self) -> Seq<u8> {
        self.absorbed@
    }
}

impl Transcript {
    /// The hash function of this transcript.
    pub closed spec fn alg(&self) -> HashAlgorithm {
        self.algorithm
    }

    /// An empty transcript hashed with `algorithm`.
    pub fn new(algorithm: HashAlgorithm) -> (t: Self)
        ensures
            t@ == Seq::<u8>::empty(),
            t.alg() == algorithm,
    {
        Transcript { algorithm, absorbed: Vec::new() }
    }

    /// The hash function of this transcript.
    pub fn algorithm(&self) -> (a: HashAlgorithm)
        ensures
            a == self.alg(),
    {
        self.algorithm
    }

    /// Absorbs `data`.
    pub fn update(&mut self, data: &[u8])
        ensures
            final(self)@ == old(self)@ + data@,
            final(self).alg() == old(self).alg(),
    {
        let mut i: usize = 0;
        while i < data.len()
            invariant
                i <= data@.len(),
                self.algorithm == old(self).alg(),
                self.absorbed@ == old(self)@ + data@.subrange(0, i as int),
            decreases data@.len() - i,
        {
            self.absorbed.push(data[i]);
            i = i + 1;
            assert(self.absorbed@ =~= old(self)@ + data@.subrange(0, i as int));
        }
        assert(data@.subrange(0, data@.len() as int) =~= data@);
    }

    /// An independent copy of this transcript in its current state.
    pub fn fork(&self) -> (t: Self)
        ensures
            t@ == self@,
            t.alg() == self.alg(),
    {
        let mut t = Transcript::new(self.algorithm);
        t.update(self.absorbed.as_slice());
        t
    }

    /// The digest of everything absorbed so far.
    pub fn finalize(&self) -> (r: Vec<u8>)
        ensures
            r@ == self.alg().spec_digest(self@),
            r@.len() == self.alg().spec_output_len(),
    {
        self.algorithm.digest(self.absorbed.as_slice())
    }
}

/// The software implementation of the crypto primitives the handshake needs.
#[derive(Debug)]
pub struct RustCryptoProvider;

impl RustCryptoProvider {
    /// A provider backed by the `sha2` and `hmac` crates.
    pub fn new() -> (p: Self) {
        RustCryptoProvider
    }

    /// The HMAC of `data` under `key` with `algorithm`.
    pub fn hmac(&mut self, algorithm: HashAlgorithm, key: &[u8], data: &[u8]) -> (r: Vec<u8>)
        ensures
            r@ == algorithm.spec_hmac(key@, data@),
            r@.len() == algorithm.spec_output_len(),
            algorithm is Sha256 ==> r@ == hmac_sha256_tag(key@, data@),
            algorithm is Sha384 ==> r@ == hmac_sha384_tag(key@, data@),
    {
        match algorithm {
            HashAlgorithm::Sha256 => hmac_sha256(key, data),
            HashAlgorithm::Sha384 => hmac_sha384(key, data),
        }
    }
}

} // verus!
