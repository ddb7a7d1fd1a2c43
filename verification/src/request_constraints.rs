//! Request constraints: URI length, method presence, protocol version,
//! and the request/connection timeout policy checks.

use vstd::prelude::*;

use crate::context::SecurityContext;
use crate::errors::{SecurityError, SecurityResult};
use crate::request::{ApiRequest, HttpVersion};
use crate::validation::is_invalid_input;

verus! {

/// Request constraints validation.
pub struct RequestConstraints {
    pub enabled: bool,
    pub max_request_time_secs: u64,
    pub max_uri_length: usize,
    pub max_connection_time_secs: u64,
    pub max_connections_per_ip: u32,
}

impl RequestConstraints {
    /// Defaults: 30 s request timeout, 8 KiB URIs, 10 min connections.
    pub fn new() -> (c: Self)
        ensures
            c.enabled,
            c.max_request_time_secs == 30,
            c.max_uri_length == 8192,
            c.max_connection_time_secs == 600,
            c.max_connections_per_ip == 1000,
    {
        RequestConstraints {
            enabled: true,
            max_request_time_secs: 30,
            max_uri_length: 8192,
            max_connection_time_secs: 600,
            max_connections_per_ip: 1000,
        }
    }

    /// Set the request timeout, in whole seconds.
    pub fn with_request_timeout(self, secs: u64) -> (c: Self)
        ensures
            c.max_request_time_secs == secs,
            c.enabled == self.enabled,
            c.max_uri_length == self.max_uri_length,
            c.max_connection_time_secs == self.max_connection_time_secs,
            c.max_connections_per_ip == self.max_connections_per_ip,
    {
        let mut c = self;
        c.max_request_time_secs = secs;
        c
    }

    /// Set the maximum URI length, in characters.
    pub fn with_max_uri_length(self, length: usize) -> (c: Self)
        ensures
            c.max_uri_length == length,
            c.enabled == self.enabled,
            c.max_request_time_secs == self.max_request_time_secs,
            c.max_connection_time_secs == self.max_connection_time_secs,
            c.max_connections_per_ip == self.max_connections_per_ip,
    {
        let mut c = self;
        c.max_uri_length = length;
        c
    }

    /// Reject over-long URIs (score 30), an empty method (score 25) and
    /// HTTP/0.9 (score 40), in that order; anything else passes with the
    /// context untouched. Lengths here are counted in characters, the
    /// unit every contract of this library states lengths in.
    pub fn validate_constraints(&self, req: &ApiRequest, context: &mut SecurityContext) -> (r:
        SecurityResult<()>)
        ensures
            !self.enabled ==> r is Ok && *final(context) == *old(context),
            self.enabled ==> {
                &&& (req.uri@.len() > self.max_uri_length ==> is_invalid_input(
                    r,
                    "URI length exceeds the configured maximum"@,
                    "uri"@,
                ) && crate::validation::context_scored(*old(context), *final(context), 30))
                &&& (req.uri@.len() <= self.max_uri_length && req.method@.len() == 0
                    ==> is_invalid_input(r, "Invalid or missing HTTP method"@, "method"@)
                    && crate::validation::context_scored(*old(context), *final(context), 25))
                &&& (req.uri@.len() <= self.max_uri_length && req.method@.len() > 0
                    && req.version == HttpVersion::Http09 ==> is_invalid_input(
                    r,
                    "HTTP/0.9 is not supported"@,
                    "version"@,
                ) && crate::validation::context_scored(*old(context), *final(context), 40))
                &&& (req.uri@.len() <= self.max_uri_length && req.method@.len() > 0
                    && req.version != HttpVersion::Http09 ==> r is Ok && *final(context)
                    == *old(context))
            },
    {
        if !self.enabled {
            return Ok(());
        }
        let uri_chars = crate::outside::to_chars(req.uri.as_str());
        if uri_chars.len() > self.max_uri_length {
            context.add_threat_score(30);
            return Err(SecurityError::InvalidInput {
                reason: "URI length exceeds the configured maximum".to_owned(),
                field: Some("uri".to_owned()),
            });
        }
        let method_chars = crate::outside::to_chars(req.method.as_str());
        if method_chars.len() == 0 {
            context.add_threat_score(25);
            return Err(SecurityError::InvalidInput {
                reason: "Invalid or missing HTTP method".to_owned(),
                field: Some("method".to_owned()),
            });
        }
        if req.version == HttpVersion::Http09 {
            context.add_threat_score(40);
            return Err(SecurityError::InvalidInput {
                reason: "HTTP/0.9 is not supported".to_owned(),
                field: Some("version".to_owned()),
            });
        }
        Ok(())
    }

    /// Has the request exceeded its time budget?
    pub fn check_request_timeout(&self, elapsed_secs: u64) -> (r: SecurityResult<()>)
        ensures
            elapsed_secs <= self.max_request_time_secs <==> r is Ok,
            r is Err ==> r matches Err(SecurityError::RequestTimeout(_)),
    {
        if elapsed_secs > self.max_request_time_secs {
            Err(SecurityError::RequestTimeout("Request exceeded the configured timeout".to_owned()))
        } else {
            Ok(())
        }
    }

    /// Has the connection exceeded its time budget?
    pub fn check_connection_time(&self, elapsed_secs: u64) -> (r: SecurityResult<()>)
        ensures
            elapsed_secs <= self.max_connection_time_secs <==> r is Ok,
            r is Err ==> r matches Err(SecurityError::ConnectionTimeout(_)),
    {
        if elapsed_secs > self.max_connection_time_secs {
            Err(
                SecurityError::ConnectionTimeout(
                    "Connection exceeded the configured timeout".to_owned(),
                ),
            )
        } else {
            Ok(())
        }
    }
}

impl Default for RequestConstraints {
    fn default() -> (c: Self)
        ensures
            c.enabled,
            c.max_request_time_secs == 30,
            c.max_uri_length == 8192,
    {
        Self::new()
    }
}

} // verus!
