//! Cookie security: hygiene of the request's `Cookie` header and policy
//! checks on `Set-Cookie` response headers.

use vstd::prelude::*;

use crate::context::SecurityContext;
use crate::errors::{SecurityError, SecurityResult};
use crate::outside::to_chars;
use crate::request::{header_lookup, ApiRequest};
use crate::text::{
    char_idx, contains_chars, contains_seq, lower_chars, lower_seq, split_char, split_seq,
    trim_chars, trim_seq,
};
use crate::validation::{context_scored, is_invalid_input};

verus! {

/// What is wrong with one `Set-Cookie` value under the given policy, as
/// the first failed check in the documented order: missing `Secure`,
/// missing `HttpOnly`, missing `SameSite`, a bad `SameSite` value,
/// `SameSite=None` without `Secure`, or an oversized value; 0 when the
/// value passes.
pub open spec fn set_cookie_verdict(cs: CookieSecurity, v: Seq<char>) -> int {
    let l = lower_seq(v);
    if cs.require_secure_flag && !contains_seq(l, "secure"@) {
        1
    } else if cs.require_httponly_flag && !contains_seq(l, "httponly"@) {
        2
    } else if cs.require_samesite && !contains_seq(l, "samesite"@) {
        3
    } else if contains_seq(l, "samesite"@) && !contains_seq(l, "samesite=strict"@)
        && !contains_seq(l, "samesite=lax"@) && !contains_seq(l, "samesite=none"@) {
        4
    } else if contains_seq(l, "samesite=none"@) && !contains_seq(l, "secure"@) {
        5
    } else if v.len() > 8192 {
        6
    } else {
        0
    }
}

/// The reason each verdict reports.
pub open spec fn set_cookie_reason(code: int) -> Seq<char> {
    if code == 1 {
        "Set-Cookie missing 'Secure' flag - cookies should only be transmitted over HTTPS"@
    } else if code == 2 {
        "Set-Cookie missing 'HttpOnly' flag - prevents JavaScript access to sensitive cookies"@
    } else if code == 3 {
        "Set-Cookie missing 'SameSite' attribute - vulnerable to CSRF"@
    } else if code == 4 {
        "Invalid SameSite value - must be 'Strict', 'Lax', or 'None'"@
    } else if code == 5 {
        "SameSite=None requires Secure flag"@
    } else {
        "Cookie value too large"@
    }
}

/// The score each verdict adds.
pub open spec fn set_cookie_weight(code: int) -> u32 {
    if code == 1 {
        25
    } else if code == 2 {
        20
    } else if code == 3 {
        20
    } else if code == 4 {
        15
    } else if code == 5 {
        30
    } else {
        20
    }
}

/// The verdict of the first failing value, scanning front to back.
pub open spec fn first_set_cookie_verdict(cs: CookieSecurity, vals: Seq<Seq<char>>) -> int
    decreases vals.len(),
{
    if vals.len() == 0 {
        0
    } else if set_cookie_verdict(cs, vals[0]) != 0 {
        set_cookie_verdict(cs, vals[0])
    } else {
        first_set_cookie_verdict(cs, vals.drop_first())
    }
}

/// What is wrong with one (trimmed) cookie pair of a request's `Cookie`
/// header: 1 for an empty name before `=`, 2 for `<` or `>` in the value;
/// 0 when the pair passes or carries no `=`.
pub open spec fn cookie_pair_verdict(t: Seq<char>) -> int {
    if t.len() == 0 {
        0
    } else {
        let j = char_idx(t, '=', 0);
        if j < 0 {
            0
        } else if j == 0 {
            1
        } else {
            let value = t.skip(j + 1);
            if contains_seq(value, "<"@) || contains_seq(value, ">"@) {
                2
            } else {
                0
            }
        }
    }
}

/// The verdict of the first failing pair.
pub open spec fn first_cookie_pair_verdict(parts: Seq<Seq<char>>) -> int
    decreases parts.len(),
{
    if parts.len() == 0 {
        0
    } else if cookie_pair_verdict(trim_seq(parts[0])) != 0 {
        cookie_pair_verdict(trim_seq(parts[0]))
    } else {
        first_cookie_pair_verdict(parts.drop_first())
    }
}

/// Cookie security validation and enforcement.
#[derive(Clone, Copy)]
pub struct CookieSecurity {
    pub enabled: bool,
    pub require_secure_flag: bool,
    pub require_httponly_flag: bool,
    pub require_samesite: bool,
}

impl CookieSecurity {
    /// Require `Secure`, `HttpOnly` and `SameSite` on every cookie.
    pub fn new() -> (c: Self)
        ensures
            c.enabled && c.require_secure_flag && c.require_httponly_flag && c.require_samesite,
    {
        CookieSecurity {
            enabled: true,
            require_secure_flag: true,
            require_httponly_flag: true,
            require_samesite: true,
        }
    }

    /// Validate the request's `Cookie` header: control characters are an
    /// injection attempt (score 35), values over 4096 characters are
    /// rejected (score 20), and each `name=value` pair must have a
    /// non-empty name (score 25) and a value free of `<` and `>` (score
    /// 30). A request without a `Cookie` header passes untouched.
    pub fn validate_cookies(&self, req: &ApiRequest, context: &mut SecurityContext) -> (r:
        SecurityResult<()>)
        ensures
            !self.enabled ==> r is Ok && *final(context) == *old(context),
            self.enabled ==> match header_lookup(req.headers@, "cookie"@) {
                Option::None => r is Ok && *final(context) == *old(context),
                Option::Some(v) => {
                    let bad_ctl = contains_seq(v, "\u{0}"@) || contains_seq(v, "\r"@)
                        || contains_seq(v, "\n"@);
                    let pv = first_cookie_pair_verdict(split_seq(v, ';'));
                    &&& (bad_ctl ==> is_invalid_input(
                        r,
                        "Invalid cookie format detected"@,
                        "cookie"@,
                    ) && context_scored(*old(context), *final(context), 35))
                    &&& (!bad_ctl && v.len() > 4096 ==> is_invalid_input(
                        r,
                        "Cookie value too large"@,
                        "cookie"@,
                    ) && context_scored(*old(context), *final(context), 20))
                    &&& (!bad_ctl && v.len() <= 4096 && pv == 1 ==> is_invalid_input(
                        r,
                        "Invalid cookie name"@,
                        "cookie"@,
                    ) && context_scored(*old(context), *final(context), 25))
                    &&& (!bad_ctl && v.len() <= 4096 && pv == 2 ==> is_invalid_input(
                        r,
                        "Potential cookie injection detected"@,
                        "cookie"@,
                    ) && context_scored(*old(context), *final(context), 30))
                    &&& (!bad_ctl && v.len() <= 4096 && pv != 1 && pv != 2 ==> r is Ok
                        && *final(context) == *old(context))
                },
            },
    {
        if !self.enabled {
            return Ok(());
        }
        let header = match req.get_header("cookie") {
            None => {
                return Ok(());
            },
            Some(h) => h,
        };
        let chars = to_chars(header.as_str());
        if contains_chars(&chars, &to_chars("\u{0}")) || contains_chars(&chars, &to_chars("\r"))
            || contains_chars(&chars, &to_chars("\n")) {
            context.add_threat_score(35);
            return Err(SecurityError::InvalidInput {
                reason: "Invalid cookie format detected".to_owned(),
                field: Some("cookie".to_owned()),
            });
        }
        if chars.len() > 4096 {
            context.add_threat_score(20);
            return Err(SecurityError::InvalidInput {
                reason: "Cookie value too large".to_owned(),
                field: Some("cookie".to_owned()),
            });
        }
        let parts = split_char(&chars, ';');
        let ghost pview = split_seq(chars@, ';');
        let ghost hv = chars@;
        let mut i: usize = 0;
        proof {
            assert(pview.skip(0) =~= pview);
        }
        while i < parts.len()
            invariant
                self.enabled,
                *context == *old(context),
                header_lookup(req.headers@, "cookie"@) == Some(hv),
                !(contains_seq(hv, "\u{0}"@) || contains_seq(hv, "\r"@) || contains_seq(
                    hv,
                    "\n"@,
                )),
                hv.len() <= 4096,
                pview == split_seq(hv, ';'),
                parts@.map_values(|v: Vec<char>| v@) == pview,
                i <= parts@.len(),
                first_cookie_pair_verdict(pview) == first_cookie_pair_verdict(
                    pview.skip(i as int),
                ),
            decreases parts@.len() - i,
        {
            proof {
                assert(pview.skip(i as int)[0] == pview[i as int]);
                assert(pview.skip(i as int).drop_first() =~= pview.skip(i + 1));
            }
            proof {
                assert(parts@.map_values(|v: Vec<char>| v@)[i as int] == parts@[i as int]@);
            }
            let t = trim_chars(&parts[i]);
            let verdict = Self::pair_verdict_exec(&t);
            if verdict == 1 {
                context.add_threat_score(25);
                return Err(SecurityError::InvalidInput {
                    reason: "Invalid cookie name".to_owned(),
                    field: Some("cookie".to_owned()),
                });
            }
            if verdict == 2 {
                context.add_threat_score(30);
                return Err(SecurityError::InvalidInput {
                    reason: "Potential cookie injection detected".to_owned(),
                    field: Some("cookie".to_owned()),
                });
            }
            i = i + 1;
        }
        proof {
            assert(pview.skip(i as int).len() == 0);
        }
        Ok(())
    }

    /// Decide `cookie_pair_verdict` for one trimmed pair.
    fn pair_verdict_exec(t: &Vec<char>) -> (r: u32)
        ensures
            r == cookie_pair_verdict(t@),
    {
        if t.len() == 0 {
            return 0;
        }
        let n = t.len();
        match crate::text::find_char(t, '=', 0) {
            None => 0,
            Some(j) => {
                if j == 0 {
                    1
                } else {
                    let value = crate::text::copy_range(t, j + 1, n);
                    proof {
                        assert(value@ =~= t@.skip(j + 1));
                    }
                    if contains_chars(&value, &to_chars("<")) || contains_chars(
                        &value,
                        &to_chars(">"),
                    ) {
                        2
                    } else {
                        0
                    }
                }
            },
        }
    }

    /// Validate `Set-Cookie` response headers against the policy: the
    /// first value that fails a check rejects the set, with the failed
    /// check's score added (see `set_cookie_verdict`).
    pub fn validate_set_cookie_headers(
        &self,
        set_cookie_values: Vec<&str>,
        context: &mut SecurityContext,
    ) -> (r: SecurityResult<()>)
        ensures
            !self.enabled ==> r is Ok && *final(context) == *old(context),
            self.enabled ==> {
                let verdict = first_set_cookie_verdict(
                    *self,
                    set_cookie_values@.map_values(|s: &str| s@),
                );
                &&& (verdict == 0 ==> r is Ok && *final(context) == *old(context))
                &&& (verdict != 0 ==> is_invalid_input(
                    r,
                    set_cookie_reason(verdict),
                    "set-cookie"@,
                ) && context_scored(
                    *old(context),
                    *final(context),
                    set_cookie_weight(verdict),
                ))
            },
    {
        if !self.enabled {
            return Ok(());
        }
        let ghost vals = set_cookie_values@.map_values(|s: &str| s@);
        let mut i: usize = 0;
        proof {
            assert(vals.skip(0) =~= vals);
        }
        while i < set_cookie_values.len()
            invariant
                self.enabled,
                *context == *old(context),
                vals == set_cookie_values@.map_values(|s: &str| s@),
                i <= vals.len(),
                first_set_cookie_verdict(*self, vals) == first_set_cookie_verdict(
                    *self,
                    vals.skip(i as int),
                ),
            decreases vals.len() - i,
        {
            proof {
                assert(vals.skip(i as int)[0] == vals[i as int]);
                assert(vals.skip(i as int).drop_first() =~= vals.skip(i + 1));
            }
            proof {
                assert(vals[i as int] == set_cookie_values@[i as int]@);
            }
            let raw = to_chars(set_cookie_values[i]);
            let lowered = lower_chars(&raw);
            let has_secure = contains_chars(&lowered, &to_chars("secure"));
            let has_httponly = contains_chars(&lowered, &to_chars("httponly"));
            let has_samesite = contains_chars(&lowered, &to_chars("samesite"));
            if self.require_secure_flag && !has_secure {
                context.add_threat_score(25);
                return Err(SecurityError::InvalidInput {
                    reason: "Set-Cookie missing 'Secure' flag - cookies should only be transmitted over HTTPS".to_owned(),
                    field: Some("set-cookie".to_owned()),
                });
            }
            if self.require_httponly_flag && !has_httponly {
                context.add_threat_score(20);
                return Err(SecurityError::InvalidInput {
                    reason: "Set-Cookie missing 'HttpOnly' flag - prevents JavaScript access to sensitive cookies".to_owned(),
                    field: Some("set-cookie".to_owned()),
                });
            }
            if self.require_samesite && !has_samesite {
                context.add_threat_score(20);
                return Err(SecurityError::InvalidInput {
                    reason: "Set-Cookie missing 'SameSite' attribute - vulnerable to CSRF".to_owned(),
                    field: Some("set-cookie".to_owned()),
                });
            }
            if has_samesite {
                let strict = contains_chars(&lowered, &to_chars("samesite=strict"));
                let lax = contains_chars(&lowered, &to_chars("samesite=lax"));
                let none_v = contains_chars(&lowered, &to_chars("samesite=none"));
                if !strict && !lax && !none_v {
                    context.add_threat_score(15);
                    return Err(SecurityError::InvalidInput {
                        reason: "Invalid SameSite value - must be 'Strict', 'Lax', or 'None'".to_owned(),
                        field: Some("set-cookie".to_owned()),
                    });
                }
                if none_v && !has_secure {
                    context.add_threat_score(30);
                    return Err(SecurityError::InvalidInput {
                        reason: "SameSite=None requires Secure flag".to_owned(),
                        field: Some("set-cookie".to_owned()),
                    });
                }
            }
            proof {
                if !contains_seq(lowered@, "samesite"@) {
                    reveal_strlit("samesite");
                    reveal_strlit("samesite=none");
                    assert("samesite=none"@.subrange(0, 8) =~= "samesite"@);
                    if contains_seq(lowered@, "samesite=none"@) {
                        crate::text::lemma_contains_of_prefix(
                            lowered@,
                            "samesite=none"@,
                            "samesite"@,
                        );
                    }
                }
            }
            if raw.len() > 8192 {
                context.add_threat_score(20);
                return Err(SecurityError::InvalidInput {
                    reason: "Cookie value too large".to_owned(),
                    field: Some("set-cookie".to_owned()),
                });
            }
            i = i + 1;
        }
        proof {
            assert(vals.skip(i as int).len() == 0);
        }
        Ok(())
    }
}

impl Default for CookieSecurity {
    fn default() -> (c: Self)
        ensures
            c.enabled && c.require_secure_flag && c.require_httponly_flag && c.require_samesite,
    {
        Self::new()
    }
}

} // verus!
