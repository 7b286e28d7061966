//! Network diagnostics for a single domain: reachability of its HTTPS
//! endpoint, its DNS records, and the certificate its TLS endpoint presents.
//! The network work itself is done by the caller; this library decides what
//! the outcomes mean and shapes them into results.

pub mod text;
pub mod error;
pub mod connectivity;
pub mod dns;
pub mod certificate;
pub mod settings;
