//! The middleware extension point: a named check with a priority, for
//! callers that want to hang their own logic off the pipeline. The chain
//! itself is deliberately minimal; custom behaviour extends the pipeline
//! directly.

use vstd::prelude::*;

verus! {

/// Core trait for custom security middleware components. Implementations
/// are the caller's; nothing is promised of them here.
pub trait SecurityMiddleware {
    /// The middleware's name, for logging.
    fn name(&self) -> &str;

    /// The middleware's priority (lower runs earlier).
    fn priority(&self) -> u32;
}

/// The middleware chain is deliberately minimal: custom middleware
/// extends the pipeline directly.
pub struct MiddlewareChain {
    pub length: usize,
}

impl MiddlewareChain {
    /// An empty chain.
    pub fn new() -> (c: Self)
        ensures
            c.length == 0,
    {
        MiddlewareChain { length: 0 }
    }
}

impl Default for MiddlewareChain {
    fn default() -> (c: Self)
        ensures
            c.length == 0,
    {
        Self::new()
    }
}

} // verus!
