use vstd::prelude::*;

verus! {

/// A TLS 1.3 signature scheme.
#[derive(Debug, Clone, Copy, PartialEq, Eq, Structural)]
pub enum SignatureScheme {
    RsaPkcs1Sha256,
    RsaPkcs1Sha384,
    RsaPkcs1Sha512,
    EcdsaSecp256r1Sha256,
    EcdsaSecp384r1Sha384,
    EcdsaSecp521r1Sha512,
    RsaPssRsaeSha256,
    RsaPssRsaeSha384,
    RsaPssRsaeSha512,
    Ed25519,
    Ed448,
    RsaPssPssSha256,
    RsaPssPssSha384,
    RsaPssPssSha512,
    RsaPkcs1Sha1,
    EcdsaSha1,
}

/// The wire code of a signature scheme (RFC 8446, section 4.2.3).
pub open spec fn signature_scheme_code(s: SignatureScheme) -> u16 {
    match s {
        SignatureScheme::RsaPkcs1Sha256 => 0x0401,
        SignatureScheme::RsaPkcs1Sha384 => 0x0501,
        SignatureScheme::RsaPkcs1Sha512 => 0x0601,
        SignatureScheme::EcdsaSecp256r1Sha256 => 0x0403,
        SignatureScheme::EcdsaSecp384r1Sha384 => 0x0503,
        SignatureScheme::EcdsaSecp521r1Sha512 => 0x0603,
        SignatureScheme::RsaPssRsaeSha256 => 0x0804,
        SignatureScheme::RsaPssRsaeSha384 => 0x0805,
        SignatureScheme::RsaPssRsaeSha512 => 0x0806,
        SignatureScheme::Ed25519 => 0x0807,
        SignatureScheme::Ed448 => 0x0808,
        SignatureScheme::RsaPssPssSha256 => 0x0809,
        SignatureScheme::RsaPssPssSha384 => 0x080a,
        SignatureScheme::RsaPssPssSha512 => 0x080b,
        SignatureScheme::RsaPkcs1Sha1 => 0x0201,
        SignatureScheme::EcdsaSha1 => 0x0203,
    }
}

/// No two signature schemes share a wire code.
pub proof fn lemma_signature_scheme_code_injective(a: SignatureScheme, b: SignatureScheme)
    ensures
        signature_scheme_code(a) == signature_scheme_code(b) ==> a == b,
{
}

/// The layout of the codes (RFC 8446, section 4.2.3): the PKCS #1 and ECDSA
/// schemes carry the hash in the high byte (2 = SHA-1, 4 = SHA-256,
/// 5 = SHA-384, 6 = SHA-512) and the signature algorithm in the low byte
/// (1 = RSA, 3 = ECDSA); the RSASSA-PSS and EdDSA schemes have high byte 8.
pub proof fn lemma_signature_scheme_code_layout(s: SignatureScheme)
    ensures
        ({
            let c = signature_scheme_code(s) as int;
            &&& (s is RsaPkcs1Sha1 || s is RsaPkcs1Sha256 || s is RsaPkcs1Sha384
                || s is RsaPkcs1Sha512) ==> c % 256 == 1
            &&& (s is EcdsaSha1 || s is EcdsaSecp256r1Sha256 || s is EcdsaSecp384r1Sha384
                || s is EcdsaSecp521r1Sha512) ==> c % 256 == 3
            &&& (s is RsaPkcs1Sha1 || s is EcdsaSha1) ==> c / 256 == 2
            &&& (s is RsaPkcs1Sha256 || s is EcdsaSecp256r1Sha256) ==> c / 256 == 4
            &&& (s is RsaPkcs1Sha384 || s is EcdsaSecp384r1Sha384) ==> c / 256 == 5
            &&& (s is RsaPkcs1Sha512 || s is EcdsaSecp521r1Sha512) ==> c / 256 == 6
            &&& (s is RsaPssRsaeSha256 || s is RsaPssRsaeSha384 || s is RsaPssRsaeSha512
                || s is Ed25519 || s is Ed448 || s is RsaPssPssSha256 || s is RsaPssPssSha384
                || s is RsaPssPssSha512) ==> c / 256 == 8
        }),
{
}

impl SignatureScheme {
    /// The wire code of this scheme.
    pub fn as_u16(self) -> (c: u16)
        ensures
            c == signature_scheme_code(self),
    {
        match self {
            SignatureScheme::RsaPkcs1Sha256 => 0x0401,
            SignatureScheme::RsaPkcs1Sha384 => 0x0501,
            SignatureScheme::RsaPkcs1Sha512 => 0x0601,
            SignatureScheme::EcdsaSecp256r1Sha256 => 0x0403,
            SignatureScheme::EcdsaSecp384r1Sha384 => 0x0503,
            SignatureScheme::EcdsaSecp521r1Sha512 => 0x0603,
            SignatureScheme::RsaPssRsaeSha256 => 0x0804,
            SignatureScheme::RsaPssRsaeSha384 => 0x0805,
            SignatureScheme::RsaPssRsaeSha512 => 0x0806,
            SignatureScheme::Ed25519 => 0x0807,
            SignatureScheme::Ed448 => 0x0808,
            SignatureScheme::RsaPssPssSha256 => 0x0809,
            SignatureScheme::RsaPssPssSha384 => 0x080a,
            SignatureScheme::RsaPssPssSha512 => 0x080b,
            SignatureScheme::RsaPkcs1Sha1 => 0x0201,
            SignatureScheme::EcdsaSha1 => 0x0203,
        }
    }
}

} // verus!
