//! Per-request threat-scoring context: identifying metadata plus a
//! monotonically non-decreasing unsigned threat score.

use vstd::prelude::*;

verus! {

/// Per-request security context. One instance is created at pipeline entry,
/// mutated by every stage that detects a signal, and returned to the caller
/// on success. The threat score never decreases during a request's lifetime:
/// every mutating method guarantees `final(self).threat_score >=
/// old(self).threat_score`.
pub struct SecurityContext {
    /// Opaque request identifier, caller-supplied or generated.
    pub request_id: String,
    /// Client identifier, typically a network address.
    pub client_ip: String,
    /// Authenticated user identifier, if any stage resolved one.
    pub user_id: Option<String>,
    /// Whether authentication succeeded for this request.
    pub authenticated: bool,
    /// Cumulative unsigned threat score accrued across independent checks.
    pub threat_score: u32,
    /// Free-form metadata (insertion order irrelevant to callers).
    pub metadata: Vec<(String, String)>,
}

impl SecurityContext {
    /// Create a fresh context carrying no threat signal.
    pub fn new(request_id: String, client_ip: String) -> (ctx: Self)
        ensures
            ctx.request_id@ == request_id@,
            ctx.client_ip@ == client_ip@,
            ctx.user_id is None,
            !ctx.authenticated,
            ctx.threat_score == 0,
            ctx.metadata@.len() == 0,
    {
        SecurityContext {
            request_id,
            client_ip,
            user_id: None,
            authenticated: false,
            threat_score: 0,
            metadata: Vec::new(),
        }
    }

    /// Accrue threat signal. The score saturates instead of wrapping, so it
    /// is monotonically non-decreasing over the request's lifetime.
    pub fn add_threat_score(&mut self, amount: u32)
        ensures
            final(self).threat_score == if old(self).threat_score + amount <= u32::MAX {
                (old(self).threat_score + amount) as u32
            } else {
                u32::MAX
            },
            final(self).threat_score >= old(self).threat_score,
            final(self).request_id == old(self).request_id,
            final(self).client_ip == old(self).client_ip,
            final(self).user_id == old(self).user_id,
            final(self).authenticated == old(self).authenticated,
            final(self).metadata == old(self).metadata,
    {
        if self.threat_score <= u32::MAX - amount {
            self.threat_score = self.threat_score + amount;
        } else {
            self.threat_score = u32::MAX;
        }
    }

    /// Record a metadata key/value pair.
    pub fn add_metadata(&mut self, key: String, value: String)
        ensures
            final(self).metadata@ == old(self).metadata@.push((key, value)),
            final(self).threat_score == old(self).threat_score,
            final(self).request_id == old(self).request_id,
            final(self).client_ip == old(self).client_ip,
            final(self).user_id == old(self).user_id,
            final(self).authenticated == old(self).authenticated,
    {
        self.metadata.push((key, value));
    }

    /// Mark the request as authenticated as the given user.
    pub fn set_authenticated_user(&mut self, user_id: String)
        ensures
            final(self).authenticated,
            final(self).user_id == Some(user_id),
            final(self).threat_score == old(self).threat_score,
            final(self).request_id == old(self).request_id,
            final(self).client_ip == old(self).client_ip,
            final(self).metadata == old(self).metadata,
    {
        self.authenticated = true;
        self.user_id = Some(user_id);
    }
}

} // verus!
