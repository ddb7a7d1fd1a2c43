//! The shared error taxonomy: one tagged kind per way a request can be
//! rejected, plus the construction-time and collaborator failures.

use vstd::prelude::*;

verus! {

/// Severity attached to a detected threat.
#[derive(Clone, Copy, Debug, PartialEq, Eq, Structural)]
pub enum ThreatSeverity {
    Low,
    Medium,
    High,
    Critical,
}

/// Every way the pipeline can reject a request, plus `ConfigError`
/// (construction time only) and `InternalError` (collaborator malfunction).
/// Each rejection is returned synchronously to the caller; nothing is
/// retried internally.
#[derive(Clone, Debug)]
pub enum SecurityError {
    /// The caller exceeded its rate; retry after this many whole seconds.
    RateLimitExceeded { retry_after: u64 },
    AuthenticationFailed(String),
    AuthorizationFailed(String),
    /// A request field failed validation; `field` names it when known.
    InvalidInput { reason: String, field: Option<String> },
    ThreatDetected { category: String, severity: ThreatSeverity },
    ConfigError(String),
    InternalError(String),
    CorsViolation(String),
    CsrfViolation(String),
    HttpsRequired,
    TransportLayerViolation(String),
    IpBlocked(String),
    VpnDetected(String),
    ProxyDetected(String),
    RequestTimeout(String),
    ConnectionTimeout(String),
    ReplayDetected(String),
}

pub type SecurityResult<T> = Result<T, SecurityError>;

} // verus!
