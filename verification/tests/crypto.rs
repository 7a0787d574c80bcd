use embedded_tls::crypto::{HashAlgorithm, RustCryptoProvider, Transcript};
use hmac::Mac;
use sha2::Digest;

fn hex(s: &str) -> Vec<u8> {
    (0..s.len()).step_by(2).map(|i| u8::from_str_radix(&s[i..i + 2], 16).unwrap()).collect()
}

#[test]
fn sha256_known_answer() {
    let mut t = Transcript::new(HashAlgorithm::Sha256);
    t.update(b"ab");
    t.update(b"c");
    assert_eq!(
        t.finalize(),
        hex("ba7816bf8f01cfea414140de5dae2223b00361a396177a9cb410ff61f20015ad")
    );
}

#[test]
fn sha384_matches_sha2() {
    let mut t = Transcript::new(HashAlgorithm::Sha384);
    t.update(b"abc");
    let out = t.finalize();
    assert_eq!(out.len(), 48);
    assert_eq!(out, sha2::Sha384::digest(b"abc").to_vec());
    assert_eq!(HashAlgorithm::Sha384.output_len(), 48);
}

#[test]
fn empty_transcript_digest() {
    let t = Transcript::new(HashAlgorithm::Sha256);
    assert_eq!(
        t.finalize(),
        hex("e3b0c44298fc1c149afbf4c8996fb92427ae41e4649b934ca495991b7852b855")
    );
}

#[test]
fn fork_is_independent() {
    let mut t = Transcript::new(HashAlgorithm::Sha256);
    t.update(b"abc");
    let mut f = t.fork();
    f.update(b"more");
    assert_eq!(t.finalize(), sha2::Sha256::digest(b"abc").to_vec());
    assert_eq!(f.finalize(), sha2::Sha256::digest(b"abcmore").to_vec());
}

#[test]
fn hmac_sha256_rfc4231_case2() {
    let mut p = RustCryptoProvider::new();
    let tag = p.hmac(HashAlgorithm::Sha256, b"Jefe", b"what do ya want for nothing?");
    assert_eq!(
        tag,
        hex("5bdcc146bf60754e6a042426089575c75a003f089d2739839dec58b964ec3843")
    );
}

#[test]
fn hmac_sha384_matches_hmac_crate() {
    let mut p = RustCryptoProvider::new();
    let tag = p.hmac(HashAlgorithm::Sha384, b"key", b"data");
    let mut m = <hmac::Hmac<sha2::Sha384> as Mac>::new_from_slice(b"key").unwrap();
    m.update(b"data");
    assert_eq!(tag, m.finalize().into_bytes().to_vec());
    assert_eq!(tag.len(), 48);
}
