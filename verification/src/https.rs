//! HTTPS/TLS transport enforcement and the HSTS response header.

use vstd::prelude::*;

use crate::context::SecurityContext;
use crate::errors::{SecurityError, SecurityResult};
use crate::headers::hsts_value;
use crate::outside::{str_eq, to_chars};
use crate::request::{header_lookup, ApiRequest};
use crate::text::{contains_chars, contains_seq, has_at};

verus! {

/// The request reached us over a secure transport, by any of the accepted
/// indicators: a proxy's `X-Forwarded-Proto: https`, Cloudflare's
/// `CF-Visitor` scheme, `Front-End-Https: on`, or an absolute URI with
/// the `https` scheme.
pub open spec fn connection_secure(req: ApiRequest) -> bool {
    ||| header_lookup(req.headers@, "x-forwarded-proto"@) == Some("https"@)
    ||| match header_lookup(req.headers@, "cf-visitor"@) {
        Some(v) => contains_seq(v, "\"scheme\":\"https\""@),
        None => false,
    }
    ||| header_lookup(req.headers@, "front-end-https"@) == Some("on"@)
    ||| has_at(req.uri@, "https:"@, 0)
}

/// HTTPS/TLS enforcement.
pub struct HttpsEnforcer {
    pub enabled: bool,
    pub require_https: bool,
    pub hsts_max_age: u32,
    pub hsts_include_subdomains: bool,
}

impl HttpsEnforcer {
    /// An enforcer with the default one-year HSTS policy.
    pub fn new(require_https: bool) -> (e: Self)
        ensures
            e.enabled,
            e.require_https == require_https,
            e.hsts_max_age == 31_536_000,
            e.hsts_include_subdomains,
    {
        HttpsEnforcer {
            enabled: true,
            require_https,
            hsts_max_age: 31_536_000,
            hsts_include_subdomains: true,
        }
    }

    /// Reject the request unless it arrived over a secure transport;
    /// enforcement off (or HTTPS not required) is a pass-through. The
    /// context is never changed by this stage.
    pub fn check_https(&self, req: &ApiRequest, context: &mut SecurityContext) -> (r:
        SecurityResult<()>)
        ensures
            *final(context) == *old(context),
            (!self.enabled || !self.require_https) ==> r is Ok,
            self.enabled && self.require_https ==> if connection_secure(*req) {
                r is Ok
            } else {
                r matches Err(SecurityError::TransportLayerViolation(m)) && m@
                    == "HTTPS connection required"@
            },
    {
        if !self.enabled || !self.require_https {
            return Ok(());
        }
        if self.is_connection_secure(req) {
            Ok(())
        } else {
            Err(SecurityError::TransportLayerViolation("HTTPS connection required".to_owned()))
        }
    }

    /// Decide `connection_secure` for a request.
    pub fn is_connection_secure(&self, req: &ApiRequest) -> (r: bool)
        ensures
            r == connection_secure(*req),
    {
        match req.get_header("x-forwarded-proto") {
            Some(v) => {
                if str_eq(v.as_str(), "https") {
                    return true;
                }
            },
            None => {},
        }
        match req.get_header("cf-visitor") {
            Some(v) => {
                let chars = to_chars(v.as_str());
                let needle = to_chars("\"scheme\":\"https\"");
                if contains_chars(&chars, &needle) {
                    return true;
                }
            },
            None => {},
        }
        match req.get_header("front-end-https") {
            Some(v) => {
                if str_eq(v.as_str(), "on") {
                    return true;
                }
            },
            None => {},
        }
        let uri = to_chars(req.uri.as_str());
        let scheme = to_chars("https:");
        if uri.len() >= scheme.len() {
            if crate::text::has_at_exec(&uri, &scheme, 0) {
                return true;
            }
        } else {
            proof {
                assert(!has_at(req.uri@, "https:"@, 0));
            }
        }
        false
    }

    /// The HSTS header value for this enforcer's policy.
    pub fn get_hsts_header(&self) -> (r: String)
        ensures
            r@ == hsts_value(self.hsts_max_age as int, self.hsts_include_subdomains),
    {
        crate::headers::SecurityHeaders::get_hsts_header(
            self.hsts_max_age,
            self.hsts_include_subdomains,
        )
    }

    /// The HSTS header, named, for responses.
    pub fn hsts_header(&self) -> (r: (&'static str, String))
        ensures
            r.0@ == "Strict-Transport-Security"@,
            r.1@ == hsts_value(self.hsts_max_age as int, self.hsts_include_subdomains),
    {
        ("Strict-Transport-Security", self.get_hsts_header())
    }
}

} // verus!
