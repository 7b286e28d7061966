//! The fixed limits under which the diagnostics run, and access to them.
use vstd::prelude::*;
use crate::certificate::TLS_PORT;
use crate::connectivity::REQUEST_TIMEOUT_SECS;
use crate::dns::{QUERY_ATTEMPTS, QUERY_TIMEOUT_SECS};

verus! {

/// The limits of one run of the diagnostics.
#[derive(Debug, Clone, Copy)]
pub struct Netting {
    pub request_timeout_secs: u64,
    pub query_timeout_secs: u64,
    pub query_attempts: usize,
    pub tls_port: u16,
}

impl Netting {
    /// The limits every diagnostic uses: one bounded request, bounded
    /// queries with a retry, the standard TLS port.
    pub fn standard() -> (r: Netting)
        ensures
            r.request_timeout_secs == REQUEST_TIMEOUT_SECS,
            r.query_timeout_secs == QUERY_TIMEOUT_SECS,
            r.query_attempts == QUERY_ATTEMPTS,
            r.tls_port == TLS_PORT,
    {
        Netting {
            request_timeout_secs: REQUEST_TIMEOUT_SECS,
            query_timeout_secs: QUERY_TIMEOUT_SECS,
            query_attempts: QUERY_ATTEMPTS,
            tls_port: TLS_PORT,
        }
    }
}

/// Access to the diagnostics' limits from whatever holds them.
pub trait NettingExt {
    fn netting(&self) -> &Netting;
}

impl NettingExt for Netting {
    fn netting(&self) -> (r: &Netting)
        ensures
            *r == *self,
    {
        self
    }
}

} // verus!
