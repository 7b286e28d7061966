//! Where a diagnostic failed: name resolution, transport, or the certificate.
use vstd::prelude::*;
use vstd::string::*;

verus! {

/// A failure of one diagnostic, classified by the stage at which it occurred.
#[derive(Debug, Clone)]
pub enum NetworkError {
    /// The resolver could not be built or a lookup failed.
    DnsError(String),
    /// TCP connect, TLS handshake or the HTTP exchange failed.
    ConnectionError(String),
    /// No certificate was presented, or it could not be decoded.
    CertificateError(String),
}

/// The description carried by an error, whatever its kind.
pub open spec fn error_detail(e: NetworkError) -> Seq<char> {
    match e {
        NetworkError::DnsError(m) => m@,
        NetworkError::ConnectionError(m) => m@,
        NetworkError::CertificateError(m) => m@,
    }
}

/// The label that starts the message of each kind.
pub open spec fn error_label(e: NetworkError) -> Seq<char> {
    match e {
        NetworkError::DnsError(_) => "DNS resolution error: "@,
        NetworkError::ConnectionError(_) => "connection error: "@,
        NetworkError::CertificateError(_) => "certificate error: "@,
    }
}

impl NetworkError {
    /// The plain text handed to the boundary: the kind's label, then the detail.
    pub fn message(&self) -> (r: String)
        ensures
            r@ == error_label(*self) + error_detail(*self),
    {
        match self {
            NetworkError::DnsError(m) => {
                let s = String::from_str("DNS resolution error: ");
                s.concat(m.as_str())
            },
            NetworkError::ConnectionError(m) => {
                let s = String::from_str("connection error: ");
                s.concat(m.as_str())
            },
            NetworkError::CertificateError(m) => {
                let s = String::from_str("certificate error: ");
                s.concat(m.as_str())
            },
        }
    }
}

} // verus!
