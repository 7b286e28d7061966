//! Reachability of a domain's HTTPS endpoint, from the outcome of one GET.
use vstd::prelude::*;

verus! {

/// Seconds allowed for the whole request: connect, TLS and response.
pub const REQUEST_TIMEOUT_SECS: u64 = 10;

/// What one GET against `https://<domain>` produced: a status line after the
/// given elapsed time, or a transport failure with its description.
pub enum HttpOutcome {
    Responded { elapsed_ms: u64, status_code: u16 },
    Failed { description: String },
}

/// Whether an HTTPS endpoint answered, how fast, and with which status.
#[derive(Debug, Clone)]
pub struct ConnectivityResult {
    pub is_reachable: bool,
    pub response_time_ms: u64,
    pub status_code: Option<u16>,
    pub error: Option<String>,
}

impl ConnectivityResult {
    /// A status code exactly when reachable; a non-empty error exactly when
    /// not, and then no response time.
    pub open spec fn wf(&self) -> bool {
        &&& self.status_code.is_some() == self.is_reachable
        &&& self.error.is_some() == !self.is_reachable
        &&& !self.is_reachable ==> self.response_time_ms == 0
            && self.error.unwrap()@.len() > 0
    }

    /// The endpoint answered: any status, an error status included, counts
    /// as reachable.
    pub fn reachable(elapsed_ms: u64, status_code: u16) -> (r: ConnectivityResult)
        ensures
            r.wf(),
            r.is_reachable,
            r.response_time_ms == elapsed_ms,
            r.status_code == Some(status_code),
            r.error.is_none(),
    {
        ConnectivityResult {
            is_reachable: true,
            response_time_ms: elapsed_ms,
            status_code: Some(status_code),
            error: None,
        }
    }

    /// The transport failed: no status, no time, and the failure's description.
    pub fn unreachable(description: String) -> (r: ConnectivityResult)
        requires
            description@.len() > 0,
        ensures
            r.wf(),
            !r.is_reachable,
            r.response_time_ms == 0,
            r.status_code.is_none(),
            r.error == Some(description),
    {
        ConnectivityResult {
            is_reachable: false,
            response_time_ms: 0,
            status_code: None,
            error: Some(description),
        }
    }
}

/// The result that one request's outcome gives. A failure never fails the
/// call: it is reported as an unreachable endpoint.
pub fn connectivity_from_outcome(outcome: HttpOutcome) -> (r: ConnectivityResult)
    requires
        outcome matches HttpOutcome::Failed { description } ==> description@.len() > 0,
    ensures
        r.wf(),
        match outcome {
            HttpOutcome::Responded { elapsed_ms, status_code } => {
                &&& r.is_reachable
                &&& r.response_time_ms == elapsed_ms
                &&& r.status_code == Some(status_code)
                &&& r.error.is_none()
            },
            HttpOutcome::Failed { description } => {
                &&& !r.is_reachable
                &&& r.response_time_ms == 0
                &&& r.status_code.is_none()
                &&& r.error == Some(description)
            },
        },
{
    match outcome {
        HttpOutcome::Responded { elapsed_ms, status_code } => ConnectivityResult::reachable(
            elapsed_ms,
            status_code,
        ),
        HttpOutcome::Failed { description } => ConnectivityResult::unreachable(description),
    }
}

/// The URL that is requested for `domain`: the domain after the scheme,
/// with no normalisation.
pub fn target_url(domain: &str) -> (r: String)
    ensures
        r@ == "https://"@ + domain@,
{
    let s = String::from_str("https://");
    s.concat(domain)
}

} // verus!
