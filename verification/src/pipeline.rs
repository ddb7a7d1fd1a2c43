//! The security pipeline: every enabled check run against one request in
//! a fixed priority order, stopping at the first blocking failure. The
//! order is rate limit, request constraints, authentication, CORS, HTTPS,
//! CSRF, content type, IP reputation, threat heuristics, input validation
//! (URI, headers, then the query raw and percent-decoded once), replay
//! timestamp. Every score a stage adds to the context before the first
//! failure is kept; the caller receives the fully mutated context on
//! success and the first error otherwise.

use vstd::prelude::*;

use crate::auth::AuthManager;
use crate::config::{rate_limit_config_wf, SecurityConfig};
use crate::content_type::ContentTypeValidator;
use crate::context::SecurityContext;
use crate::cookie_security::CookieSecurity;
use crate::cors::CorsEnforcer;
use crate::csrf::CsrfProtection;
use crate::errors::{SecurityError, SecurityResult, ThreatSeverity};
use crate::https::HttpsEnforcer;
use crate::ip_reputation::IpReputation;
use crate::method_validator::MethodValidator;
use crate::outside::{new_request_id, now_unix_millis, now_unix_secs, to_chars};
use crate::rate_limit::{check_admits, spec_fresh_bucket, RateLimiter};
use crate::request::{percent_decode, uri_query, ApiRequest, HttpVersion};
use crate::request_constraints::RequestConstraints;
use crate::threats::ThreatDetector;
use crate::validation::{
    context_scored, first_category, is_invalid_input, kind_reason, kind_weight, InjectionKind,
    InputValidator,
};
use crate::config::ValidationConfig;

verus! {


/// Where a request's validation scan stops, mirroring the documented
/// order: the payload hint, the URI, each header in order (size before
/// patterns), then the query percent-decoded once and raw.
pub enum ScanVerdict {
    PayloadTooLarge,
    UriHit(InjectionKind),
    HeaderTooLarge(int),
    HeaderHit(int, InjectionKind),
    QueryDecodedHit(InjectionKind),
    QueryRawHit(InjectionKind),
    Clean,
}

/// The body-length hint exceeds the configured ceiling.
pub open spec fn payload_too_large(cfg: ValidationConfig, req: ApiRequest) -> bool {
    match req.body_length {
        Option::Some(len) => len > cfg.max_payload_size,
        Option::None => false,
    }
}

/// The first header, from index `i` on, that is oversized or matches an
/// enabled category.
pub open spec fn first_header_issue(
    cfg: ValidationConfig,
    hs: Seq<(String, String)>,
    i: int,
) -> ScanVerdict
    decreases hs.len() - i,
{
    if i < 0 || i >= hs.len() {
        ScanVerdict::Clean
    } else if hs[i].1@.len() > cfg.max_header_size {
        ScanVerdict::HeaderTooLarge(i)
    } else {
        match first_category(cfg, hs[i].1@) {
            Option::Some(k) => ScanVerdict::HeaderHit(i, k),
            Option::None => first_header_issue(cfg, hs, i + 1),
        }
    }
}

/// The whole scan's verdict for a request.
pub open spec fn scan_verdict(cfg: ValidationConfig, req: ApiRequest) -> ScanVerdict {
    if payload_too_large(cfg, req) {
        ScanVerdict::PayloadTooLarge
    } else {
        match first_category(cfg, req.uri@) {
            Option::Some(k) => ScanVerdict::UriHit(k),
            Option::None => match first_header_issue(cfg, req.headers@, 0) {
                ScanVerdict::Clean => match uri_query(req.uri@) {
                    Option::None => ScanVerdict::Clean,
                    Option::Some(q) => match first_category(
                        cfg,
                        crate::request::percent_decode_seq(q),
                    ) {
                        Option::Some(k) => ScanVerdict::QueryDecodedHit(k),
                        Option::None => match first_category(cfg, q) {
                            Option::Some(k) => ScanVerdict::QueryRawHit(k),
                            Option::None => ScanVerdict::Clean,
                        },
                    },
                },
                issue => issue,
            },
        }
    }
}


/// The request presents no credentials at all: the deterministic
/// authentication path.
pub open spec fn no_credentials(req: ApiRequest) -> bool {
    &&& crate::request::header_lookup(req.headers@, "authorization"@) is None
    &&& crate::request::header_lookup(req.headers@, "x-api-key"@) is None
}

/// Every stage that consults neither the clock nor the outside token
/// codec accepts the request outright, for a caller presenting no
/// credentials. Together with admission and timestamp freshness this is
/// the condition under which the pipeline owes success.
pub open spec fn stages_pass_time_free(l: SecurityLayer, req: ApiRequest, key: Seq<char>) -> bool {
    &&& (l.constraints.enabled ==> req.uri@.len() <= l.constraints.max_uri_length
        && req.method@.len() > 0 && req.version != HttpVersion::Http09)
    &&& (l.methods.enabled ==> crate::method_validator::method_in(
        l.methods.allowed_methods@.map_values(|s: String| s@),
        crate::text::upper_seq(req.method@),
    ) && crate::text::upper_seq(req.method@) != "TRACE"@ && crate::text::upper_seq(req.method@)
        != "CONNECT"@)
    &&& no_credentials(req)
    &&& (l.auth.config.enabled ==> !l.auth.config.require_auth)
    &&& (l.cors.enabled ==> crate::cors::cors_pass(l.cors, req))
    &&& (l.https.enabled && l.https.require_https ==> crate::https::connection_secure(req))
    &&& (l.csrf.enabled && crate::csrf::state_changing(req.method@) ==> match
        crate::request::header_lookup(req.headers@, l.csrf.header_name@) {
        Option::Some(t) => crate::csrf::token_format_ok(t),
        Option::None => false,
    })
    &&& (l.cookies.enabled ==> match crate::request::header_lookup(req.headers@, "cookie"@) {
        Option::Some(v) => {
            &&& !(crate::text::contains_seq(v, "\u{0}"@) || crate::text::contains_seq(v, "\r"@)
                || crate::text::contains_seq(v, "\n"@))
            &&& v.len() <= 4096
            &&& crate::cookie_security::first_cookie_pair_verdict(
                crate::text::split_seq(v, ';'),
            ) != 1
            &&& crate::cookie_security::first_cookie_pair_verdict(
                crate::text::split_seq(v, ';'),
            ) != 2
        },
        Option::None => true,
    })
    &&& (l.content_type.enabled && (req.method@ == "POST"@ || req.method@ == "PUT"@
        || req.method@ == "PATCH"@) ==> match crate::request::header_lookup(
        req.headers@,
        "content-type"@,
    ) {
        Option::Some(ct) => crate::content_type::content_type_format_ok(ct)
            && crate::content_type::type_allowed(l.content_type.allowed_types@, ct)
            && crate::content_type::charset_allowed(ct),
        Option::None => !l.content_type.strict_mode,
    })
    &&& (l.ip_reputation.enabled ==> {
        let white = crate::ip_reputation::list_has(l.ip_reputation.whitelisted_ips@, key);
        let black = crate::ip_reputation::list_has(l.ip_reputation.blacklisted_ips@, key);
        white || (!black && !(!l.ip_reputation.allow_vpn
            && crate::ip_reputation::vpn_suspected(req)) && !(!l.ip_reputation.allow_proxy
            && crate::ip_reputation::proxy_suspected(req)))
    })
    &&& (l.config.validation.enabled ==> scan_verdict(l.config.validation, req)
        == ScanVerdict::Clean)
}

/// The caller-supplied timestamp, when one is presented and parseable, is
/// inside the replay window at `now_secs`.
pub open spec fn timestamp_fresh(req: ApiRequest, now_secs: u64) -> bool {
    match crate::request::header_lookup(req.headers@, "x-timestamp"@) {
        Option::Some(h) => match dec_u64_of(h) {
            Option::Some(ts) => now_secs <= ts + 300 && ts <= now_secs + 60,
            Option::None => true,
        },
        Option::None => true,
    }
}

/// The whole pipeline, built once from a configuration and owning every
/// stage, including the rate limiter's bucket map (dependency injection:
/// independent layers never share state).
pub struct SecurityLayer {
    pub config: SecurityConfig,
    pub rate_limiter: RateLimiter,
    pub constraints: RequestConstraints,
    pub auth: AuthManager,
    pub cors: CorsEnforcer,
    pub https: HttpsEnforcer,
    pub csrf: CsrfProtection,
    pub cookies: CookieSecurity,
    pub content_type: ContentTypeValidator,
    pub methods: MethodValidator,
    pub ip_reputation: IpReputation,
    pub threat_detector: ThreatDetector,
    pub validator: InputValidator,
}

impl SecurityLayer {
    /// Every stateful component is well formed and agrees with the
    /// configuration.
    pub open spec fn wf(&self) -> bool {
        &&& self.rate_limiter.wf()
        &&& self.rate_limiter.config == self.config.rate_limit
        &&& self.auth.wf()
        &&& self.validator.wf()
        &&& self.validator.config == self.config.validation
    }

    /// Build the pipeline from a configuration.
    pub fn new(config: SecurityConfig) -> (l: Self)
        requires
            config.rate_limit.enabled ==> rate_limit_config_wf(config.rate_limit),
        ensures
            l.wf(),
            l.config == config,
            l.rate_limiter.buckets@ == Map::<Seq<char>, crate::rate_limit::TokenBucket>::empty(),
    {
        let rate_limiter = RateLimiter::new(config.rate_limit);
        let auth = AuthManager::new(duplicate_auth(&config.auth));
        let validator = InputValidator::new(config.validation);
        let mut cors = CorsEnforcer::new();
        cors.enabled = config.cors.enabled;
        cors.allow_all_origins = config.cors.allow_all_origins;
        cors.allowed_origins = copy_strings(&config.cors.allow_origins);
        cors.allow_credentials = config.cors.allow_credentials;
        cors.max_age = config.cors.max_age;
        let https = HttpsEnforcer {
            enabled: config.https.enabled,
            require_https: config.https.require_https,
            hsts_max_age: config.https.hsts_max_age,
            hsts_include_subdomains: config.https.hsts_include_subdomains,
        };
        let mut csrf = CsrfProtection::new();
        csrf.enabled = config.csrf.enabled;
        let mut content_type = ContentTypeValidator::new();
        content_type.enabled = config.content_type.enabled;
        content_type.strict_mode = config.content_type.strict_mode;
        content_type.allowed_types = copy_strings(&config.content_type.allowed_types);
        let threat_detector = ThreatDetector::new(config.threat_detection.enabled);
        SecurityLayer {
            config,
            rate_limiter,
            constraints: RequestConstraints::new(),
            auth,
            cors,
            https,
            csrf,
            cookies: CookieSecurity::new(),
            content_type,
            methods: MethodValidator::new(),
            ip_reputation: IpReputation::new(),
            threat_detector,
            validator,
        }
    }

    /// Process one request with a fresh context, a generated request
    /// identifier, the client taken from `X-Forwarded-For` (or `unknown`),
    /// and the wall clock. Success is owed whenever every clock-free stage
    /// accepts, the rate limit is off, and no caller timestamp is
    /// presented; with the clock unknown here, the timed cases are
    /// `process_request_at`'s.
    pub fn process_request(&mut self, req: &ApiRequest) -> (r: SecurityResult<SecurityContext>)
        requires
            old(self).wf(),
        ensures
            final(self).wf(),
            final(self).config == old(self).config,
            ({
                let key = match crate::request::header_lookup(
                    req.headers@,
                    "x-forwarded-for"@,
                ) {
                    Option::Some(ip) => if ip.len() == 0 {
                        "unknown"@
                    } else {
                        ip
                    },
                    Option::None => "unknown"@,
                };
                &&& stages_pass_time_free(*old(self), *req, key)
                &&& !old(self).config.rate_limit.enabled
                &&& crate::request::header_lookup(req.headers@, "x-timestamp"@) is None
            }) ==> r is Ok,
    {
        let request_id = new_request_id();
        let client_ip = match req.get_header("x-forwarded-for") {
            Some(ip) => {
                if ip.as_str().is_empty() {
                    "unknown".to_owned()
                } else {
                    ip
                }
            },
            None => "unknown".to_owned(),
        };
        let now_ms = now_unix_millis();
        let now_secs = now_unix_secs();
        self.process_request_at(req, request_id, client_ip, now_ms, now_secs)
    }

    /// Process one request at the given instants, with the given identity.
    /// The rate limiter runs first and its bucket transition is exactly
    /// `RateLimiter::check_at`'s: in particular, a disabled rate limit
    /// creates no bucket, and a rejection reports the retry hint. After
    /// admission the deterministic stages run in the fixed order; a
    /// success means every enabled stage passed, and the returned context
    /// carries the request identity and the accumulated advisory score.
    #[verifier::rlimit(100)]
    pub fn process_request_at(
        &mut self,
        req: &ApiRequest,
        request_id: String,
        client_ip: String,
        now_ms: u64,
        now_secs: u64,
    ) -> (r: SecurityResult<SecurityContext>)
        requires
            old(self).wf(),
        ensures
            final(self).wf(),
            final(self).config == old(self).config,
            final(self).validator == old(self).validator,
            !old(self).config.rate_limit.enabled ==> final(self).rate_limiter.buckets@ == old(
                self,
            ).rate_limiter.buckets@,
            old(self).config.rate_limit.enabled ==> {
                let cfg = old(self).config.rate_limit;
                let key = if client_ip@.len() == 0 {
                    "unknown"@
                } else {
                    client_ip@
                };
                let b0 = if old(self).rate_limiter.buckets@.dom().contains(key) {
                    old(self).rate_limiter.buckets@[key]
                } else {
                    spec_fresh_bucket(cfg, now_ms)
                };
                &&& final(self).rate_limiter.buckets@ == old(
                    self,
                ).rate_limiter.buckets@.insert(
                    key,
                    crate::rate_limit::bucket_after_check(b0, cfg, now_ms),
                )
                &&& (!check_admits(b0, cfg, now_ms) ==> ({
                    &&& r matches Err(SecurityError::RateLimitExceeded { retry_after })
                    &&& retry_after >= 1
                }))
            },
            r is Ok && old(self).config.validation.enabled ==> first_category(
                old(self).config.validation,
                req.uri@,
            ) is None && (match uri_query(req.uri@) {
                Option::Some(q) => first_category(old(self).config.validation, q) is None
                    && first_category(
                    old(self).config.validation,
                    crate::request::percent_decode_seq(q),
                ) is None,
                Option::None => true,
            }),
            ({
                let key = if client_ip@.len() == 0 {
                    "unknown"@
                } else {
                    client_ip@
                };
                &&& stages_pass_time_free(*old(self), *req, key)
                &&& (old(self).config.rate_limit.enabled ==> check_admits(
                    if old(self).rate_limiter.buckets@.dom().contains(key) {
                        old(self).rate_limiter.buckets@[key]
                    } else {
                        spec_fresh_bucket(old(self).config.rate_limit, now_ms)
                    },
                    old(self).config.rate_limit,
                    now_ms,
                ))
                &&& timestamp_fresh(*req, now_secs)
            }) ==> r is Ok,
            r matches Ok(ctx) ==> ({
                &&& ctx.request_id@ == request_id@
                &&& ctx.client_ip@ == (if client_ip@.len() == 0 {
                    "unknown"@
                } else {
                    client_ip@
                })
            }),
    {
        let client_ip = if client_ip.as_str().is_empty() {
            "unknown".to_owned()
        } else {
            client_ip
        };
        proof {
            reveal_strlit("unknown");
            assert(client_ip@.len() >= 1);
        }
        let mut context = SecurityContext::new(request_id, client_ip);

        // Stage: rate limit.
        match self.rate_limiter.check_at(context.client_ip.as_str(), now_ms) {
            Ok(_) => {},
            Err(e) => {
                return Err(e);
            },
        }

        // Stage: request constraints.
        match self.constraints.validate_constraints(req, &mut context) {
            Ok(_) => {},
            Err(e) => {
                return Err(e);
            },
        }

        // Stage: method policy.
        match self.methods.validate_method(req, &mut context) {
            Ok(_) => {},
            Err(e) => {
                return Err(e);
            },
        }

        // Stage: authentication (permissive unless mandated).
        match self.auth.authenticate(req, now_secs) {
            Ok(Some(user)) => {
                context.set_authenticated_user(user.user_id);
            },
            Ok(None) => {},
            Err(e) => {
                return Err(e);
            },
        }

        // Stage: origin policy.
        match self.cors.check_cors(req, &mut context) {
            Ok(_) => {},
            Err(e) => {
                return Err(e);
            },
        }

        // Stage: transport policy.
        match self.https.check_https(req, &mut context) {
            Ok(_) => {},
            Err(e) => {
                return Err(e);
            },
        }

        // Stage: CSRF policy.
        match self.csrf.validate_csrf(req, &mut context) {
            Ok(_) => {},
            Err(e) => {
                return Err(e);
            },
        }

        // Stage: cookie hygiene.
        match self.cookies.validate_cookies(req, &mut context) {
            Ok(_) => {},
            Err(e) => {
                return Err(e);
            },
        }

        // Stage: content type.
        match self.content_type.validate_content_type(req, &mut context) {
            Ok(_) => {},
            Err(e) => {
                return Err(e);
            },
        }

        // Stage: IP reputation.
        match self.ip_reputation.check_ip_reputation(req, &mut context) {
            Ok(_) => {},
            Err(e) => {
                return Err(e);
            },
        }

        // Stage: advisory threat heuristics. Score is telemetry; the
        // analysis blocks only when the detector is configured to block
        // suspicious traffic and the indicators cross the threshold.
        let user_agent = req.get_header("user-agent");
        let analysis = self.threat_detector.analyze(user_agent.as_ref(), &context);
        if analysis.is_threat && self.config.threat_detection.block_suspicious {
            context.add_threat_score(analysis.total_score);
            return Err(
                SecurityError::ThreatDetected {
                    category: "heuristic".to_owned(),
                    severity: ThreatSeverity::High,
                },
            );
        }

        // Stage: input validation over every text field of the request.
        match self.validate_request(req, &mut context) {
            Ok(_) => {},
            Err(e) => {
                return Err(e);
            },
        }

        // Stage: replay protection, when the caller supplied a timestamp.
        match req.get_header("x-timestamp") {
            Some(ts) => {
                match parse_u64(ts.as_str()) {
                    Some(request_ts) => {
                        let replay = crate::replay_protection::ReplayProtection::new();
                        match replay.validate_timestamp_at(request_ts, now_secs, &mut context) {
                            Ok(_) => {},
                            Err(e) => {
                                return Err(e);
                            },
                        }
                    },
                    None => {},
                }
            },
            None => {},
        }

        Ok(context)
    }

    /// Validate every text field of the request, in the documented order:
    /// the payload size hint against the configured ceiling, the URI, every
    /// header value (oversized values rejected before pattern matching, to
    /// bound worst-case scan cost), then the query string percent-decoded
    /// once and raw. `scan_verdict` names where the scan stops; the result,
    /// the reported field, and the score are exact for each outcome, and
    /// the threat score never decreases.
    pub fn validate_request(&self, req: &ApiRequest, context: &mut SecurityContext) -> (r:
        SecurityResult<()>)
        requires
            self.wf(),
        ensures
            !self.config.validation.enabled ==> r is Ok && *final(context) == *old(context),
            r is Ok ==> *final(context) == *old(context),
            final(context).threat_score >= old(context).threat_score,
            self.config.validation.enabled ==> {
                let cfg = self.config.validation;
                match scan_verdict(cfg, *req) {
                    ScanVerdict::Clean => r is Ok && *final(context) == *old(context),
                    ScanVerdict::PayloadTooLarge => is_invalid_input(
                        r,
                        "Payload size exceeds the configured maximum"@,
                        "body"@,
                    ) && *final(context) == *old(context),
                    ScanVerdict::UriHit(k) => is_invalid_input(r, kind_reason(k), "uri"@)
                        && context_scored(*old(context), *final(context), kind_weight(k)),
                    ScanVerdict::HeaderTooLarge(i) => is_invalid_input(
                        r,
                        "Header value too large"@,
                        req.headers@[i].0@,
                    ) && *final(context) == *old(context),
                    ScanVerdict::HeaderHit(i, k) => is_invalid_input(
                        r,
                        kind_reason(k),
                        req.headers@[i].0@,
                    ) && context_scored(*old(context), *final(context), kind_weight(k)),
                    ScanVerdict::QueryDecodedHit(k) => is_invalid_input(
                        r,
                        kind_reason(k),
                        "query"@,
                    ) && context_scored(*old(context), *final(context), kind_weight(k)),
                    ScanVerdict::QueryRawHit(k) => is_invalid_input(r, kind_reason(k), "query"@)
                        && context_scored(*old(context), *final(context), kind_weight(k)),
                }
            },
    {
        if !self.config.validation.enabled {
            return Ok(());
        }
        let ghost cfg = self.config.validation;
        match req.body_length {
            Some(len) => {
                if len > self.config.validation.max_payload_size as u64 {
                    return Err(SecurityError::InvalidInput {
                        reason: "Payload size exceeds the configured maximum".to_owned(),
                        field: Some("body".to_owned()),
                    });
                }
            },
            None => {},
        }
        match self.validator.validate_string(req.uri.as_str(), "uri", context) {
            Ok(_) => {},
            Err(e) => {
                return Err(e);
            },
        }
        let mut i: usize = 0;
        while i < req.headers.len()
            invariant
                self.wf(),
                self.config.validation.enabled,
                cfg == self.config.validation,
                !payload_too_large(cfg, *req),
                *context == *old(context),
                first_category(cfg, req.uri@) is None,
                i <= req.headers@.len(),
                first_header_issue(cfg, req.headers@, 0) == first_header_issue(
                    cfg,
                    req.headers@,
                    i as int,
                ),
            decreases req.headers@.len() - i,
        {
            let value = &req.headers[i].1;
            let value_chars = to_chars(value.as_str());
            if value_chars.len() > self.config.validation.max_header_size {
                return Err(SecurityError::InvalidInput {
                    reason: "Header value too large".to_owned(),
                    field: Some(crate::outside::chars_to_string(&to_chars(
                        req.headers[i].0.as_str(),
                    ))),
                });
            }
            let name = crate::outside::chars_to_string(&to_chars(req.headers[i].0.as_str()));
            match self.validator.validate_string(value.as_str(), name.as_str(), context) {
                Ok(_) => {},
                Err(e) => {
                    return Err(e);
                },
            }
            i = i + 1;
        }
        proof {
            assert(first_header_issue(cfg, req.headers@, i as int) == ScanVerdict::Clean);
        }
        match req.query() {
            Some(q) => {
                let q_chars = to_chars(q.as_str());
                let decoded = percent_decode(&q_chars);
                let decoded_str = crate::outside::chars_to_string(&decoded);
                match self.validator.validate_string(decoded_str.as_str(), "query", context) {
                    Ok(_) => {},
                    Err(e) => {
                        return Err(e);
                    },
                }
                match self.validator.validate_string(q.as_str(), "query", context) {
                    Ok(_) => {},
                    Err(e) => {
                        return Err(e);
                    },
                }
                Ok(())
            },
            None => Ok(()),
        }
    }
}

/// Copy a list of strings, keeping each view.
fn copy_strings(items: &Vec<String>) -> (r: Vec<String>)
    ensures
        r@.len() == items@.len(),
        forall|i: int| 0 <= i < items@.len() ==> #[trigger] r@[i]@ == items@[i]@,
{
    let mut r: Vec<String> = Vec::new();
    let mut i: usize = 0;
    while i < items.len()
        invariant
            i <= items@.len(),
            r@.len() == i,
            forall|j: int| 0 <= j < i ==> #[trigger] r@[j]@ == items@[j]@,
        decreases items@.len() - i,
    {
        r.push(items[i].as_str().to_owned());
        i = i + 1;
    }
    r
}

/// Copy an authentication configuration, keeping every field's value.
fn duplicate_auth(c: &crate::config::AuthConfig) -> (r: crate::config::AuthConfig)
    ensures
        r.enabled == c.enabled,
        r.require_auth == c.require_auth,
        match (r.jwt_secret, c.jwt_secret) {
            (Option::Some(a), Option::Some(b)) => a@ == b@,
            (Option::None, Option::None) => true,
            _ => false,
        },
        r.api_keys@.len() == c.api_keys@.len(),
        forall|i: int| 0 <= i < c.api_keys@.len() ==> #[trigger] r.api_keys@[i]@ == c.api_keys@[i]@,
        r.token_expiry_secs == c.token_expiry_secs,
{
    crate::config::AuthConfig {
        enabled: c.enabled,
        require_auth: c.require_auth,
        jwt_secret: match &c.jwt_secret {
            Some(s) => Some(s.as_str().to_owned()),
            None => None,
        },
        api_keys: copy_strings(&c.api_keys),
        token_expiry_secs: c.token_expiry_secs,
        refresh_enabled: c.refresh_enabled,
        mfa_enabled: c.mfa_enabled,
    }
}

/// The number a decimal string denotes, when it is one `u64` can hold:
/// a non-empty digit run whose value fits.
pub open spec fn dec_u64_of(s: Seq<char>) -> Option<int> {
    if s.len() >= 1 && crate::numfmt::all_digits(s) && crate::numfmt::dec_value(s) <= u64::MAX {
        Some(crate::numfmt::dec_value(s))
    } else {
        None
    }
}

/// Parse a decimal `u64` exactly: every non-empty digit run whose value
/// fits is accepted, anything else rejected. The accumulator saturates
/// just past the type's range, so arbitrarily long digit runs are decided
/// without overflow.
pub fn parse_u64(s: &str) -> (r: Option<u64>)
    ensures
        match r {
            Some(v) => dec_u64_of(s@) == Some(v as int),
            None => dec_u64_of(s@) is None,
        },
{
    let chars = to_chars(s);
    if chars.len() == 0 {
        return None;
    }
    let cap: u128 = 0x1_0000_0000_0000_0000;
    let mut v: u128 = 0;
    let mut i: usize = 0;
    while i < chars.len()
        invariant
            chars@ == s@,
            1 <= chars@.len(),
            i <= chars@.len(),
            cap == 0x1_0000_0000_0000_0000u128,
            forall|j: int| 0 <= j < i ==> crate::text::is_digit_char(#[trigger] chars@[j]),
            v <= cap,
            (v <= u64::MAX && v == crate::numfmt::dec_value(chars@.subrange(0, i as int))) || (
            v > u64::MAX && crate::numfmt::dec_value(chars@.subrange(0, i as int)) > u64::MAX),
        decreases chars@.len() - i,
    {
        let c = chars[i];
        if !('0' <= c && c <= '9') {
            return None;
        }
        proof {
            assert(chars@.subrange(0, i + 1).drop_last() =~= chars@.subrange(0, i as int));
            assert(chars@.subrange(0, i + 1).last() == chars@[i as int]);
            if crate::numfmt::dec_value(chars@.subrange(0, i as int)) > u64::MAX {
                crate::numfmt::lemma_dec_value_nonneg(chars@.subrange(0, i + 1));
            }
        }
        let raw: u128 = v * 10 + ((c as u8 - '0' as u8) as u128);
        v = if raw > cap {
            cap
        } else {
            raw
        };
        i = i + 1;
    }
    proof {
        assert(chars@.subrange(0, i as int) =~= chars@);
    }
    if v <= u64::MAX as u128 {
        Some(v as u64)
    } else {
        None
    }
}

} // verus!
