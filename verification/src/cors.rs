//! CORS (Cross-Origin Resource Sharing) policy enforcement: origin
//! matching with wildcard subdomains, and preflight method and header
//! checks.

use vstd::prelude::*;

use crate::context::SecurityContext;
use crate::errors::{SecurityError, SecurityResult};
use crate::outside::{str_eq, to_chars};
use crate::request::{header_lookup, ApiRequest};
use crate::text::{
    eq_chars, find_idx, has_at, lower_chars, lower_seq, split_char, split_seq, trim_chars,
    trim_seq, upper_chars, upper_seq,
};
use crate::validation::context_scored;
use vstd::string::StringExecFns;

verus! {

/// One allowed-origin entry matches an origin: either exactly, or — for a
/// wildcard entry containing `*.` — when the origin starts with the part
/// before the wildcard and its remainder is the domain after it or any
/// subdomain of it.
pub open spec fn origin_entry_matches(entry: Seq<char>, origin: Seq<char>) -> bool {
    if entry == origin {
        true
    } else {
        let j = find_idx(entry, "*."@, 0);
        if j < 0 {
            false
        } else {
            let prefix = entry.subrange(0, j);
            let domain = entry.skip(j + 2);
            &&& has_at(origin, prefix, 0)
            &&& {
                let rest = origin.skip(j);
                rest == domain || {
                    &&& rest.len() > domain.len()
                    &&& rest.skip(rest.len() - domain.len() - 1) == seq!['.'] + domain
                }
            }
        }
    }
}

/// The origin is allowed: all origins are, or some entry matches.
pub open spec fn origin_allowed(c: CorsEnforcer, origin: Seq<char>) -> bool {
    c.allow_all_origins || exists|i: int|
        0 <= i < c.allowed_origins@.len() && origin_entry_matches(
            #[trigger] c.allowed_origins@[i]@,
            origin,
        )
}

/// A header (already lower-cased) is allowed for preflight: the always-
/// safe set, or a configured entry compared case-insensitively.
pub open spec fn cors_header_allowed(c: CorsEnforcer, h: Seq<char>) -> bool {
    ||| h == "content-type"@
    ||| h == "accept"@
    ||| h == "accept-language"@
    ||| h == "accept-encoding"@
    ||| exists|i: int| 0 <= i < c.allowed_headers@.len() && lower_seq(#[trigger] c.allowed_headers@[i]@) == h
}

/// A method (upper-cased) is in the configured method list.
pub open spec fn cors_method_allowed(c: CorsEnforcer, m: Seq<char>) -> bool {
    exists|i: int| 0 <= i < c.allowed_methods@.len() && #[trigger] c.allowed_methods@[i]@ == m
}

/// Every enabled CORS check accepts the request: the origin when one is
/// declared, and for preflight requests the requested method and every
/// requested header.
pub open spec fn cors_pass(c: CorsEnforcer, req: ApiRequest) -> bool {
    &&& match header_lookup(req.headers@, "origin"@) {
        Option::Some(o) => origin_allowed(c, o),
        Option::None => true,
    }
    &&& (req.method@ == "OPTIONS"@ ==> ({
        &&& match header_lookup(req.headers@, "access-control-request-method"@) {
            Option::Some(m) => cors_method_allowed(c, upper_seq(m)),
            Option::None => true,
        }
        &&& match header_lookup(req.headers@, "access-control-request-headers"@) {
            Option::Some(hs) => forall|i: int|
                0 <= i < split_seq(hs, ',').len() ==> cors_header_allowed(
                    c,
                    lower_seq(trim_seq(#[trigger] split_seq(hs, ',')[i])),
                ),
            Option::None => true,
        }
    }))
}

/// CORS policy enforcement.
pub struct CorsEnforcer {
    pub enabled: bool,
    pub allowed_origins: Vec<String>,
    pub allow_all_origins: bool,
    pub allowed_methods: Vec<String>,
    pub allowed_headers: Vec<String>,
    pub expose_headers: Vec<String>,
    pub allow_credentials: bool,
    pub max_age: u32,
}

impl CorsEnforcer {
    /// No origins allowed yet; the common methods and headers.
    pub fn new() -> (c: Self)
        ensures
            c.enabled,
            c.allowed_origins@.len() == 0,
            !c.allow_all_origins,
            c.allowed_methods@.len() == 6,
            c.allowed_headers@.len() == 4,
            c.expose_headers@.len() == 2,
            c.allow_credentials,
            c.max_age == 86_400,
    {
        let mut allowed_methods: Vec<String> = Vec::new();
        allowed_methods.push("GET".to_owned());
        allowed_methods.push("POST".to_owned());
        allowed_methods.push("PUT".to_owned());
        allowed_methods.push("DELETE".to_owned());
        allowed_methods.push("PATCH".to_owned());
        allowed_methods.push("OPTIONS".to_owned());
        let mut allowed_headers: Vec<String> = Vec::new();
        allowed_headers.push("Content-Type".to_owned());
        allowed_headers.push("Authorization".to_owned());
        allowed_headers.push("X-API-Key".to_owned());
        allowed_headers.push("X-Request-ID".to_owned());
        let mut expose_headers: Vec<String> = Vec::new();
        expose_headers.push("X-Total-Count".to_owned());
        expose_headers.push("X-Page-Number".to_owned());
        CorsEnforcer {
            enabled: true,
            allowed_origins: Vec::new(),
            allow_all_origins: false,
            allowed_methods,
            allowed_headers,
            expose_headers,
            allow_credentials: true,
            max_age: 86_400,
        }
    }

    /// Allow one origin (exact, or wildcard with `*.`).
    pub fn add_allowed_origin(self, origin: String) -> (c: Self)
        ensures
            c.allowed_origins@ == self.allowed_origins@.push(origin),
            c.allow_all_origins == self.allow_all_origins,
            c.enabled == self.enabled,
            c.allowed_methods == self.allowed_methods,
            c.allowed_headers == self.allowed_headers,
            c.expose_headers == self.expose_headers,
            c.allow_credentials == self.allow_credentials,
            c.max_age == self.max_age,
    {
        let mut c = self;
        c.allowed_origins.push(origin);
        c
    }

    /// Allow several origins.
    pub fn with_allowed_origins(self, origins: Vec<String>) -> (c: Self)
        ensures
            c.allowed_origins@ == self.allowed_origins@ + origins@,
            c.allow_all_origins == self.allow_all_origins,
            c.enabled == self.enabled,
            c.allowed_methods == self.allowed_methods,
            c.allowed_headers == self.allowed_headers,
            c.expose_headers == self.expose_headers,
            c.allow_credentials == self.allow_credentials,
            c.max_age == self.max_age,
    {
        let mut c = self;
        let mut origins = origins;
        c.allowed_origins.append(&mut origins);
        c
    }

    /// Allow every origin (not recommended for production).
    pub fn allow_all_origins(self) -> (c: Self)
        ensures
            c.allow_all_origins,
            c.allowed_origins == self.allowed_origins,
            c.enabled == self.enabled,
            c.allowed_methods == self.allowed_methods,
            c.allowed_headers == self.allowed_headers,
            c.expose_headers == self.expose_headers,
            c.allow_credentials == self.allow_credentials,
            c.max_age == self.max_age,
    {
        let mut c = self;
        c.allow_all_origins = true;
        c
    }

    /// Is this origin allowed by the policy?
    pub fn is_origin_allowed(&self, origin: &str) -> (r: bool)
        ensures
            r == origin_allowed(*self, origin@),
    {
        if self.allow_all_origins {
            return true;
        }
        let origin_chars = to_chars(origin);
        let mut i: usize = 0;
        while i < self.allowed_origins.len()
            invariant
                origin_chars@ == origin@,
                i <= self.allowed_origins@.len(),
                forall|j: int|
                    0 <= j < i ==> !origin_entry_matches(
                        #[trigger] self.allowed_origins@[j]@,
                        origin@,
                    ),
            decreases self.allowed_origins@.len() - i,
        {
            let entry = to_chars(self.allowed_origins[i].as_str());
            if Self::entry_matches(&entry, &origin_chars) {
                return true;
            }
            i = i + 1;
        }
        false
    }

    /// Decide `origin_entry_matches`.
    fn entry_matches(entry: &Vec<char>, origin: &Vec<char>) -> (r: bool)
        ensures
            r == origin_entry_matches(entry@, origin@),
    {
        if eq_chars(entry, origin) {
            return true;
        }
        let star = to_chars("*.");
        let no = origin.len();
        match crate::text::find_from(entry, &star, 0) {
            None => false,
            Some(j) => {
                proof {
                    reveal_strlit("*.");
                    crate::text::lemma_find_idx(entry@, "*."@, 0);
                    assert("*."@.len() == 2);
                }
                if j > origin.len() {
                    proof {
                        assert(!has_at(origin@, entry@.subrange(0, j as int), 0));
                    }
                    return false;
                }
                let ne = entry.len();
                assert(j + 2 <= ne);
                let prefix = crate::text::copy_range(entry, 0, j);
                let domain = crate::text::copy_range(entry, j + 2, ne);
                proof {
                    assert(domain@ =~= entry@.skip(j + 2));
                }
                if !crate::text::has_at_exec(origin, &prefix, 0) {
                    return false;
                }
                let rest = crate::text::copy_range(origin, j, no);
                proof {
                    assert(rest@ =~= origin@.skip(j as int));
                }
                if eq_chars(&rest, &domain) {
                    return true;
                }
                if rest.len() > domain.len() {
                    let tail = crate::text::copy_range(
                        &rest,
                        rest.len() - domain.len() - 1,
                        rest.len(),
                    );
                    proof {
                        assert(tail@ =~= rest@.skip(rest@.len() - domain@.len() - 1));
                    }
                    let mut dotted = to_chars(".");
                    crate::sanitize::append_all(&mut dotted, &domain);
                    proof {
                        reveal_strlit(".");
                        assert(dotted@ =~= seq!['.'] + domain@);
                    }
                    eq_chars(&tail, &dotted)
                } else {
                    false
                }
            },
        }
    }

    /// Is this (lower-cased) request header allowed for preflight?
    pub fn is_header_allowed(&self, header: &str) -> (r: bool)
        ensures
            r == cors_header_allowed(*self, header@),
    {
        if str_eq(header, "content-type") || str_eq(header, "accept") || str_eq(
            header,
            "accept-language",
        ) || str_eq(header, "accept-encoding") {
            return true;
        }
        let want = to_chars(header);
        let mut i: usize = 0;
        while i < self.allowed_headers.len()
            invariant
                want@ == header@,
                i <= self.allowed_headers@.len(),
                forall|j: int|
                    0 <= j < i ==> lower_seq(#[trigger] self.allowed_headers@[j]@) != header@,
            decreases self.allowed_headers@.len() - i,
        {
            let entry = lower_chars(&to_chars(self.allowed_headers[i].as_str()));
            if eq_chars(&entry, &want) {
                return true;
            }
            i = i + 1;
        }
        false
    }

    /// Enforce the CORS policy: a disallowed `Origin` rejects (score 20);
    /// for preflight (`OPTIONS`) requests, a disallowed requested method
    /// (score 15) or requested header (score 15) rejects. The requested
    /// headers are checked left to right, trimmed and lower-cased.
    pub fn check_cors(&self, req: &ApiRequest, context: &mut SecurityContext) -> (r:
        SecurityResult<()>)
        ensures
            !self.enabled ==> r is Ok && *final(context) == *old(context),
            self.enabled ==> {
                let origin_bad = match header_lookup(req.headers@, "origin"@) {
                    Option::Some(o) => !origin_allowed(*self, o),
                    Option::None => false,
                };
                &&& (origin_bad ==> ({
                    &&& r matches Err(SecurityError::CorsViolation(_))
                    &&& context_scored(*old(context), *final(context), 20)
                }))
                &&& (!origin_bad && req.method@ != "OPTIONS"@ ==> r is Ok && *final(context)
                    == *old(context))
                &&& (!origin_bad && req.method@ == "OPTIONS"@ ==> {
                    let method_bad = match header_lookup(
                        req.headers@,
                        "access-control-request-method"@,
                    ) {
                        Option::Some(m) => !cors_method_allowed(*self, upper_seq(m)),
                        Option::None => false,
                    };
                    &&& (method_bad ==> ({
                        &&& r matches Err(SecurityError::CorsViolation(_))
                        &&& context_scored(*old(context), *final(context), 15)
                    }))
                    &&& (!method_bad ==> match header_lookup(
                        req.headers@,
                        "access-control-request-headers"@,
                    ) {
                        Option::None => r is Ok && *final(context) == *old(context),
                        Option::Some(hs) => {
                            let bad = exists|i: int|
                                0 <= i < split_seq(hs, ',').len() && !cors_header_allowed(
                                    *self,
                                    lower_seq(trim_seq(#[trigger] split_seq(hs, ',')[i])),
                                );
                            &&& (bad ==> ({
                                &&& r matches Err(SecurityError::CorsViolation(_))
                                &&& context_scored(*old(context), *final(context), 15)
                            }))
                            &&& (!bad ==> r is Ok && *final(context) == *old(context))
                        },
                    })
                })
            },
    {
        if !self.enabled {
            return Ok(());
        }
        match req.get_header("origin") {
            Some(o) => {
                if !self.is_origin_allowed(o.as_str()) {
                    context.add_threat_score(20);
                    return Err(SecurityError::CorsViolation("Origin is not allowed".to_owned()));
                }
            },
            None => {},
        }
        if !str_eq(req.method.as_str(), "OPTIONS") {
            return Ok(());
        }
        match req.get_header("access-control-request-method") {
            Some(m) => {
                let up = upper_chars(&to_chars(m.as_str()));
                let mut found = false;
                let mut i: usize = 0;
                while i < self.allowed_methods.len()
                    invariant
                        up@ == upper_seq(m@),
                        i <= self.allowed_methods@.len(),
                        found == exists|j: int|
                            0 <= j < i && #[trigger] self.allowed_methods@[j]@ == upper_seq(m@),
                    decreases self.allowed_methods@.len() - i,
                {
                    let entry = to_chars(self.allowed_methods[i].as_str());
                    if eq_chars(&entry, &up) {
                        found = true;
                    }
                    i = i + 1;
                }
                if !found {
                    context.add_threat_score(15);
                    return Err(SecurityError::CorsViolation("Method is not allowed".to_owned()));
                }
            },
            None => {},
        }
        match req.get_header("access-control-request-headers") {
            Some(hs) => {
                let chars = to_chars(hs.as_str());
                let parts = split_char(&chars, ',');
                let ghost pv = split_seq(hs@, ',');
                let mut i: usize = 0;
                while i < parts.len()
                    invariant
                        self.enabled,
                        *context == *old(context),
                        req.method@ == "OPTIONS"@,
                        match header_lookup(req.headers@, "origin"@) {
                            Option::Some(o) => origin_allowed(*self, o),
                            Option::None => true,
                        },
                        match header_lookup(req.headers@, "access-control-request-method"@) {
                            Option::Some(m) => cors_method_allowed(*self, upper_seq(m)),
                            Option::None => true,
                        },
                        header_lookup(req.headers@, "access-control-request-headers"@) == Some(
                            hs@,
                        ),
                        pv == split_seq(hs@, ','),
                        parts@.map_values(|v: Vec<char>| v@) == pv,
                        i <= pv.len(),
                        forall|j: int|
                            0 <= j < i ==> cors_header_allowed(
                                *self,
                                lower_seq(trim_seq(#[trigger] pv[j])),
                            ),
                    decreases pv.len() - i,
                {
                    proof {
                        assert(parts@.map_values(|v: Vec<char>| v@)[i as int]
                            == parts@[i as int]@);
                    }
                    let trimmed = trim_chars(&parts[i]);
                    let lowered = lower_chars(&trimmed);
                    let h = crate::outside::chars_to_string(&lowered);
                    if !self.is_header_allowed(h.as_str()) {
                        context.add_threat_score(15);
                        return Err(
                            SecurityError::CorsViolation("Header is not allowed".to_owned()),
                        );
                    }
                    i = i + 1;
                }
                Ok(())
            },
            None => Ok(()),
        }
    }

    /// The CORS response headers for an origin: the origin echo exactly
    /// when it is allowed, then the credentials flag, the configured
    /// method, header and expose lists joined with commas, and the max-age.
    pub fn get_cors_headers(&self, origin: &str) -> (r: Vec<(&'static str, String)>)
        ensures
            ({
                let base: int = if origin_allowed(*self, origin@) {
                    1
                } else {
                    0
                };
                &&& r@.len() == base + 5
                &&& (origin_allowed(*self, origin@) ==> r@[0].0@
                    == "Access-Control-Allow-Origin"@ && r@[0].1@ == origin@)
                &&& r@[base].0@ == "Access-Control-Allow-Credentials"@
                &&& r@[base].1@ == (if self.allow_credentials {
                    "true"@
                } else {
                    "false"@
                })
                &&& r@[base + 1].0@ == "Access-Control-Allow-Methods"@
                &&& r@[base + 1].1@ == join_comma_seq(
                    self.allowed_methods@.map_values(|s: String| s@),
                )
                &&& r@[base + 2].0@ == "Access-Control-Allow-Headers"@
                &&& r@[base + 2].1@ == join_comma_seq(
                    self.allowed_headers@.map_values(|s: String| s@),
                )
                &&& r@[base + 3].0@ == "Access-Control-Expose-Headers"@
                &&& r@[base + 3].1@ == join_comma_seq(
                    self.expose_headers@.map_values(|s: String| s@),
                )
                &&& r@[base + 4].0@ == "Access-Control-Max-Age"@
                &&& r@[base + 4].1@ == crate::numfmt::dec_digits(self.max_age as int)
            }),
    {
        let mut r: Vec<(&'static str, String)> = Vec::new();
        if self.is_origin_allowed(origin) {
            r.push(("Access-Control-Allow-Origin", origin.to_owned()));
        }
        if self.allow_credentials {
            r.push(("Access-Control-Allow-Credentials", "true".to_owned()));
        } else {
            r.push(("Access-Control-Allow-Credentials", "false".to_owned()));
        }
        r.push(("Access-Control-Allow-Methods", join_comma(&self.allowed_methods)));
        r.push(("Access-Control-Allow-Headers", join_comma(&self.allowed_headers)));
        r.push(("Access-Control-Expose-Headers", join_comma(&self.expose_headers)));
        r.push(("Access-Control-Max-Age", crate::numfmt::u64_to_string(self.max_age as u64)));
        r
    }
}

/// The strings joined with `, `: empty for an empty list, otherwise each
/// entry after the first prefixed by the separator.
pub open spec fn join_comma_seq(items: Seq<Seq<char>>) -> Seq<char>
    decreases items.len(),
{
    if items.len() == 0 {
        Seq::empty()
    } else if items.len() == 1 {
        items[0]
    } else {
        join_comma_seq(items.drop_last()) + ", "@ + items.last()
    }
}

/// Join strings with `, `.
fn join_comma(items: &Vec<String>) -> (r: String)
    ensures
        r@ == join_comma_seq(items@.map_values(|s: String| s@)),
{
    let ghost iv = items@.map_values(|s: String| s@);
    let mut out = String::new();
    let mut i: usize = 0;
    proof {
        assert(iv.subrange(0, 0) =~= Seq::<Seq<char>>::empty());
    }
    while i < items.len()
        invariant
            iv == items@.map_values(|s: String| s@),
            i <= iv.len(),
            out@ == join_comma_seq(iv.subrange(0, i as int)),
        decreases iv.len() - i,
    {
        if i > 0 {
            out.append(", ");
        }
        out.append(items[i].as_str());
        proof {
            assert(iv.subrange(0, i + 1).drop_last() =~= iv.subrange(0, i as int));
            assert(iv.subrange(0, i + 1).last() == iv[i as int]);
            if i == 0 {
                assert(out@ =~= iv[0]);
            }
        }
        i = i + 1;
    }
    proof {
        assert(iv.subrange(0, iv.len() as int) =~= iv);
    }
    out
}

impl Default for CorsEnforcer {
    fn default() -> (c: Self)
        ensures
            c.enabled,
            !c.allow_all_origins,
    {
        Self::new()
    }
}

} // verus!
