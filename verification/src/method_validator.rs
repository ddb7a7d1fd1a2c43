//! HTTP method validation and whitelisting. Methods are compared
//! ASCII-case-insensitively; `TRACE` and `CONNECT` are always refused.

use vstd::prelude::*;

use crate::context::SecurityContext;
use crate::errors::{SecurityError, SecurityResult};
use crate::outside::{chars_to_string, to_chars};
use crate::request::ApiRequest;
use crate::text::{eq_chars, upper_chars, upper_seq};
use crate::validation::is_invalid_input;
use vstd::string::StringExecFns;

verus! {

/// Whether a method (upper-cased) is in the allow list.
pub open spec fn method_in(list: Seq<Seq<char>>, m: Seq<char>) -> bool {
    exists|i: int| 0 <= i < list.len() && list[i] == m
}

/// HTTP method validation.
pub struct MethodValidator {
    pub enabled: bool,
    pub allowed_methods: Vec<String>,
}

impl MethodValidator {
    /// A validator allowing the seven common methods.
    pub fn new() -> (v: Self)
        ensures
            v.enabled,
            v.allowed_methods@.map_values(|s: String| s@) =~= seq![
                "GET"@,
                "POST"@,
                "PUT"@,
                "DELETE"@,
                "PATCH"@,
                "HEAD"@,
                "OPTIONS"@,
            ],
    {
        let mut allowed: Vec<String> = Vec::new();
        allowed.push("GET".to_owned());
        allowed.push("POST".to_owned());
        allowed.push("PUT".to_owned());
        allowed.push("DELETE".to_owned());
        allowed.push("PATCH".to_owned());
        allowed.push("HEAD".to_owned());
        allowed.push("OPTIONS".to_owned());
        MethodValidator { enabled: true, allowed_methods: allowed }
    }

    /// Replace the allow list with exactly these methods, upper-cased.
    pub fn restrict_to(self, methods: Vec<&str>) -> (v: Self)
        ensures
            v.enabled == self.enabled,
            v.allowed_methods@.map_values(|s: String| s@) =~= methods@.map_values(
                |s: &str| upper_seq(s@),
            ),
    {
        let mut allowed: Vec<String> = Vec::new();
        let mut i: usize = 0;
        while i < methods.len()
            invariant
                i <= methods@.len(),
                allowed@.map_values(|s: String| s@) =~= methods@.subrange(
                    0,
                    i as int,
                ).map_values(|s: &str| upper_seq(s@)),
            decreases methods@.len() - i,
        {
            let ghost pre = allowed@;
            let up = upper_chars(&to_chars(methods[i]));
            allowed.push(chars_to_string(&up));
            proof {
                assert(allowed@.map_values(|s: String| s@) =~= pre.map_values(
                    |s: String| s@,
                ).push(up@));
                assert(methods@.subrange(0, i + 1).map_values(|s: &str| upper_seq(s@))
                    =~= methods@.subrange(0, i as int).map_values(|s: &str| upper_seq(s@)).push(
                    upper_seq(methods@[i as int]@),
                ));
                assert(allowed@.map_values(|s: String| s@) =~= methods@.subrange(
                    0,
                    i + 1,
                ).map_values(|s: &str| upper_seq(s@)));
            }
            i = i + 1;
        }
        proof {
            assert(methods@.subrange(0, methods@.len() as int) =~= methods@);
        }
        MethodValidator { enabled: self.enabled, allowed_methods: allowed }
    }

    /// Add one allowed method, upper-cased.
    pub fn allow_method(self, method: &str) -> (v: Self)
        ensures
            v.enabled == self.enabled,
            v.allowed_methods@.map_values(|s: String| s@) =~= self.allowed_methods@.map_values(
                |s: String| s@,
            ).push(upper_seq(method@)),
    {
        let mut allowed = self.allowed_methods;
        let up = upper_chars(&to_chars(method));
        allowed.push(chars_to_string(&up));
        proof {
            assert(allowed@.map_values(|s: String| s@) =~= allowed@.drop_last().map_values(
                |s: String| s@,
            ).push(upper_seq(method@)));
        }
        MethodValidator { enabled: self.enabled, allowed_methods: allowed }
    }

    /// Is this method (compared upper-cased) allowed?
    pub fn is_method_allowed(&self, method: &str) -> (r: bool)
        ensures
            r == method_in(self.allowed_methods@.map_values(|s: String| s@), upper_seq(method@)),
    {
        let up = upper_chars(&to_chars(method));
        let mut i: usize = 0;
        while i < self.allowed_methods.len()
            invariant
                up@ == upper_seq(method@),
                i <= self.allowed_methods@.len(),
                forall|j: int| 0 <= j < i ==> self.allowed_methods@[j]@ != up@,
            decreases self.allowed_methods@.len() - i,
        {
            let entry = to_chars(self.allowed_methods[i].as_str());
            if eq_chars(&entry, &up) {
                proof {
                    let lv = self.allowed_methods@.map_values(|s: String| s@);
                    assert(lv[i as int] == upper_seq(method@));
                }
                return true;
            }
            i = i + 1;
        }
        proof {
            let lv = self.allowed_methods@.map_values(|s: String| s@);
            assert(forall|j: int| 0 <= j < lv.len() ==> lv[j] != upper_seq(method@));
        }
        false
    }

    /// Reject requests whose method is not allowed (or is `TRACE` or
    /// `CONNECT`, which are always refused for security). A rejection adds
    /// 20 to the threat score for an unknown method and 35 for the
    /// disabled pair.
    pub fn validate_method(&self, req: &ApiRequest, context: &mut SecurityContext) -> (r:
        SecurityResult<()>)
        ensures
            !self.enabled ==> r is Ok && *final(context) == *old(context),
            self.enabled ==> {
                let m = upper_seq(req.method@);
                let allowed = method_in(
                    self.allowed_methods@.map_values(|s: String| s@),
                    m,
                );
                &&& (!allowed ==> is_invalid_input(
                    r,
                    "HTTP method '"@ + m + "' is not allowed"@,
                    "method"@,
                ) && crate::validation::context_scored(*old(context), *final(context), 20))
                &&& (allowed && (m == "TRACE"@ || m == "CONNECT"@) ==> is_invalid_input(
                    r,
                    "HTTP method '"@ + m + "' is disabled for security reasons"@,
                    "method"@,
                ) && crate::validation::context_scored(*old(context), *final(context), 35))
                &&& (allowed && m != "TRACE"@ && m != "CONNECT"@ ==> r is Ok && *final(context)
                    == *old(context))
            },
    {
        if !self.enabled {
            return Ok(());
        }
        let up = upper_chars(&to_chars(req.method.as_str()));
        let method = chars_to_string(&up);
        if !self.is_method_allowed(req.method.as_str()) {
            context.add_threat_score(20);
            let mut reason = "HTTP method '".to_owned();
            reason.append(method.as_str());
            reason.append("' is not allowed");
            return Err(SecurityError::InvalidInput {
                reason,
                field: Some("method".to_owned()),
            });
        }
        let trace = to_chars("TRACE");
        let connect = to_chars("CONNECT");
        if eq_chars(&up, &trace) || eq_chars(&up, &connect) {
            context.add_threat_score(35);
            let mut reason = "HTTP method '".to_owned();
            reason.append(method.as_str());
            reason.append("' is disabled for security reasons");
            return Err(SecurityError::InvalidInput {
                reason,
                field: Some("method".to_owned()),
            });
        }
        Ok(())
    }
}

impl Default for MethodValidator {
    fn default() -> (v: Self)
        ensures
            v.enabled,
    {
        Self::new()
    }
}

} // verus!
