use vstd::prelude::*;

verus! {

/// The severity of an alert.
#[derive(Debug, Clone, Copy, PartialEq, Eq, Structural)]
pub enum AlertLevel {
    Warning,
    Fatal,
}

/// What an alert reports (RFC 8446, section 6).
#[derive(Debug, Clone, Copy, PartialEq, Eq, Structural)]
pub enum AlertDescription {
    CloseNotify,
    UnexpectedMessage,
    BadRecordMac,
    RecordOverflow,
    HandshakeFailure,
    BadCertificate,
    UnsupportedCertificate,
    CertificateRevoked,
    CertificateExpired,
    CertificateUnknown,
    IllegalParameter,
    UnknownCa,
    AccessDenied,
    DecodeError,
    DecryptError,
    ProtocolVersion,
    InsufficientSecurity,
    InternalError,
    InappropriateFallback,
    UserCanceled,
    MissingExtension,
    UnsupportedExtension,
    UnrecognizedName,
    BadCertificateStatusResponse,
    UnknownPskIdentity,
    CertificateRequired,
    NoApplicationProtocol,
}

/// An alert record.
#[derive(Debug, Clone, Copy, PartialEq, Eq, Structural)]
pub struct Alert {
    pub level: AlertLevel,
    pub description: AlertDescription,
}

impl Alert {
    /// An alert of the given level and description.
    pub fn new(level: AlertLevel, description: AlertDescription) -> (a: Self)
        ensures
            a.level == level,
            a.description == description,
    {
        Alert { level, description }
    }
}

} // verus!
