# embedded_tls (verified core)

The handshake-framing core of a TLS 1.3 client, written in Verus.

Layout of `src/`:

- `buffer.rs` — `CryptoBuffer`, a bounded output buffer; every write appends
  exactly its encoding or fails without touching what was written.
- `parse_buffer.rs` — `ParseBuffer`, a cursor over received bytes.
- `crypto.rs` — the transcript hash (`Transcript`), the hash algorithms and
  the HMAC provider; the only calls into `sha2`, `digest` and `hmac` live here,
  behind trusted wrappers whose results are named by `sha256_digest`,
  `sha384_digest`, `hmac_sha256_tag` and `hmac_sha384_tag`.
- `handshake/` — handshake types and messages: reading server messages into
  the transcript, encoding client messages, and appending the PSK binder.
  Message bodies whose inner structure this crate does not interpret
  (ServerHello, EncryptedExtensions, Certificate, CertificateRequest,
  CertificateVerify, NewSessionTicket, ClientHello) are carried as the raw
  bytes of their body, whose length the handshake header announces.
- `key_schedule.rs` — the binder key and the binder computation.
- `common/` — `DecryptedReadHandler`, which dispatches records received while
  the application reads.
- `alert.rs`, `record.rs`, `config.rs`, `signature_algorithms.rs`,
  `error.rs` — the data types these use.

`app/` holds what implements outside traits (a zero RNG for `rand_core`) and
conversions from `digest` outputs. `tests/` runs the library on concrete
values, including known SHA-256 and HMAC answers.
