use vstd::prelude::*;

verus! {

/// Errors raised while reading bytes from a [`crate::parse_buffer::ParseBuffer`].
#[derive(Debug, Clone, Copy, PartialEq, Eq, Structural)]
pub enum ParseError {
    InsufficientBytes,
    InsufficientSpace,
    InvalidData,
}

/// Errors of the TLS layer.
#[derive(Debug, Clone, Copy, PartialEq, Eq, Structural)]
pub enum TlsError {
    ConnectionClosed,
    InternalError,
    InvalidHandshake,
    EncodeError,
    InsufficientSpace,
    ParseError(ParseError),
}

} // verus!
