//! A verified core of a TLS 1.3 client: handshake message framing, the
//! transcript hash, the PSK binder and the handling of decrypted records.

pub mod error;
pub mod buffer;
pub mod parse_buffer;
pub mod crypto;
pub mod handshake;
pub mod signature_algorithms;
pub mod config;
pub mod key_schedule;
pub mod alert;
pub mod record;
pub mod common;
