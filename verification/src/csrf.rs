//! CSRF token validation for state-changing requests, token generation,
//! and the SameSite cookie-attribute check.

use vstd::prelude::*;

use crate::context::SecurityContext;
use crate::errors::{SecurityError, SecurityResult};
use crate::outside::{chars_to_string, random_below, to_chars};
use crate::request::{header_lookup, ApiRequest};
use crate::text::{contains_chars, contains_seq, is_alnum_char, lower_chars, lower_seq};

verus! {

/// An acceptable CSRF token: 16 to 256 characters, alphanumerics, `-` and
/// `_` only.
pub open spec fn token_format_ok(s: Seq<char>) -> bool {
    16 <= s.len() <= 256 && forall|i: int|
        0 <= i < s.len() ==> is_alnum_char(#[trigger] s[i]) || s[i] == '-' || s[i] == '_'
}

/// A cookie header carries an acceptable SameSite policy: `Strict`, `Lax`,
/// or `None` together with `Secure` (compared case-insensitively).
pub open spec fn samesite_ok(s: Seq<char>) -> bool {
    let l = lower_seq(s);
    ||| contains_seq(l, "samesite=strict"@)
    ||| contains_seq(l, "samesite=lax"@)
    ||| contains_seq(l, "samesite=none; secure"@)
}

/// A method whose requests change state and therefore need a CSRF token.
pub open spec fn state_changing(m: Seq<char>) -> bool {
    m == "POST"@ || m == "PUT"@ || m == "DELETE"@ || m == "PATCH"@
}

/// CSRF (Cross-Site Request Forgery) token validation.
pub struct CsrfProtection {
    pub enabled: bool,
    pub token_length: usize,
    pub header_name: String,
    pub param_name: String,
}

impl CsrfProtection {
    /// Protection reading the `X-CSRF-Token` header.
    pub fn new() -> (p: Self)
        ensures
            p.enabled,
            p.token_length == 32,
            p.header_name@ == "X-CSRF-Token"@,
            p.param_name@ == "_csrf"@,
    {
        CsrfProtection {
            enabled: true,
            token_length: 32,
            header_name: "X-CSRF-Token".to_owned(),
            param_name: "_csrf".to_owned(),
        }
    }

    /// A fresh random token: 32 characters drawn from the upper-case
    /// letters and digits. Randomness comes from the process RNG, so only
    /// shape is promised, never value.
    pub fn generate_token() -> (r: String)
        ensures
            r@.len() == 32,
            forall|i: int|
                0 <= i < r@.len() ==> ('A' <= #[trigger] r@[i] && r@[i] <= 'Z') || ('0' <= r@[i]
                    && r@[i] <= '9'),
    {
        let charset = to_chars("ABCDEFGHIJKLMNOPQRSTUVWXYZ0123456789");
        proof {
            reveal_strlit("ABCDEFGHIJKLMNOPQRSTUVWXYZ0123456789");
            assert(charset@.len() == 36);
            assert forall|j: int|
                0 <= j < 36 implies ('A' <= #[trigger] charset@[j] && charset@[j] <= 'Z') || (
            '0' <= charset@[j] && charset@[j] <= '9') by {}
        }
        let mut out: Vec<char> = Vec::new();
        let mut i: usize = 0;
        while i < 32
            invariant
                charset@.len() == 36,
                forall|j: int|
                    0 <= j < 36 ==> ('A' <= #[trigger] charset@[j] && charset@[j] <= 'Z') || (
                    '0' <= charset@[j] && charset@[j] <= '9'),
                i <= 32,
                out@.len() == i,
                forall|j: int|
                    0 <= j < out@.len() ==> ('A' <= #[trigger] out@[j] && out@[j] <= 'Z') || (
                    '0' <= out@[j] && out@[j] <= '9'),
            decreases 32 - i,
        {
            let idx = random_below(36);
            out.push(charset[idx]);
            i = i + 1;
        }
        chars_to_string(&out)
    }

    /// Is the token's shape acceptable?
    pub fn is_valid_token_format(token: &str) -> (r: bool)
        ensures
            r == token_format_ok(token@),
    {
        let chars = to_chars(token);
        if chars.len() < 16 || chars.len() > 256 {
            return false;
        }
        let mut i: usize = 0;
        while i < chars.len()
            invariant
                chars@ == token@,
                16 <= chars@.len() <= 256,
                i <= chars@.len(),
                forall|j: int|
                    0 <= j < i ==> is_alnum_char(#[trigger] chars@[j]) || chars@[j] == '-'
                        || chars@[j] == '_',
            decreases chars@.len() - i,
        {
            let c = chars[i];
            let alnum = ('0' <= c && c <= '9') || ('a' <= c && c <= 'z') || ('A' <= c && c
                <= 'Z');
            if !(alnum || c == '-' || c == '_') {
                return false;
            }
            i = i + 1;
        }
        true
    }

    /// Validate the CSRF token of a state-changing request: absence is a
    /// violation (score 30), a malformed token is a violation (score 40),
    /// and non-state-changing methods pass untouched.
    pub fn validate_csrf(&self, req: &ApiRequest, context: &mut SecurityContext) -> (r:
        SecurityResult<()>)
        ensures
            !self.enabled ==> r is Ok && *final(context) == *old(context),
            self.enabled ==> {
                let tok = header_lookup(req.headers@, self.header_name@);
                &&& (!state_changing(req.method@) ==> r is Ok && *final(context) == *old(
                    context,
                ))
                &&& (state_changing(req.method@) ==> match tok {
                    Option::None => ({
                        &&& r matches Err(SecurityError::CsrfViolation(m))
                        &&& m@ == "CSRF token missing from request"@
                        &&& crate::validation::context_scored(
                            *old(context),
                            *final(context),
                            30,
                        )
                    }),
                    Option::Some(t) => if !token_format_ok(t) {
                        ({
                            &&& r matches Err(SecurityError::CsrfViolation(m))
                            &&& m@ == "Invalid CSRF token format"@
                            &&& crate::validation::context_scored(
                                *old(context),
                                *final(context),
                                40,
                            )
                        })
                    } else {
                        r is Ok && *final(context) == *old(context)
                    },
                })
            },
    {
        if !self.enabled {
            return Ok(());
        }
        let m = &req.method;
        let is_changing = crate::outside::str_eq(m.as_str(), "POST") || crate::outside::str_eq(
            m.as_str(),
            "PUT",
        ) || crate::outside::str_eq(m.as_str(), "DELETE") || crate::outside::str_eq(
            m.as_str(),
            "PATCH",
        );
        if !is_changing {
            return Ok(());
        }
        match req.get_header(self.header_name.as_str()) {
            None => {
                context.add_threat_score(30);
                Err(SecurityError::CsrfViolation("CSRF token missing from request".to_owned()))
            },
            Some(token) => {
                if !Self::is_valid_token_format(token.as_str()) {
                    context.add_threat_score(40);
                    Err(SecurityError::CsrfViolation("Invalid CSRF token format".to_owned()))
                } else {
                    Ok(())
                }
            },
        }
    }

    /// Does the cookie carry an acceptable SameSite attribute?
    pub fn validate_samesite_cookie(cookie_value: &str) -> (r: bool)
        ensures
            r == samesite_ok(cookie_value@),
    {
        let lowered = lower_chars(&to_chars(cookie_value));
        let strict = to_chars("samesite=strict");
        let lax = to_chars("samesite=lax");
        let none_secure = to_chars("samesite=none; secure");
        contains_chars(&lowered, &strict) || contains_chars(&lowered, &lax) || contains_chars(
            &lowered,
            &none_secure,
        )
    }
}

impl Default for CsrfProtection {
    fn default() -> (p: Self)
        ensures
            p.enabled,
            p.token_length == 32,
            p.header_name@ == "X-CSRF-Token"@,
            p.param_name@ == "_csrf"@,
    {
        Self::new()
    }
}

} // verus!
