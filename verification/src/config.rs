//! Configuration for every stage of the pipeline. All durations are held
//! as whole seconds and all sizes as bytes, so the limits the stages
//! enforce are stated exactly.

use vstd::prelude::*;

verus! {

/// Rate-limiting configuration. The steady-state rate is
/// `requests_per_window` tokens per window of `window_secs` seconds;
/// `burst_size` is the bucket capacity and may exceed the per-window count
/// to absorb spikes.
#[derive(Clone, Copy, Debug)]
pub struct RateLimitConfig {
    pub enabled: bool,
    pub requests_per_window: u32,
    pub window_secs: u64,
    pub burst_size: u32,
    pub per_ip: bool,
    pub per_user: bool,
    pub adaptive: bool,
}

/// A rate-limit configuration the limiter can run on: a positive window
/// short enough that the fixed-point token arithmetic cannot overflow, and
/// a positive rate and burst.
pub open spec fn rate_limit_config_wf(c: RateLimitConfig) -> bool {
    &&& 1 <= c.window_secs <= 31_536_000
    &&& 1 <= c.requests_per_window
    &&& 1 <= c.burst_size
}

impl RateLimitConfig {
    /// Decide, executably, whether the limiter can run on this
    /// configuration; unverified callers test this before building a
    /// pipeline.
    pub fn is_runnable(&self) -> (r: bool)
        ensures
            r == rate_limit_config_wf(*self),
    {
        1 <= self.window_secs && self.window_secs <= 31_536_000 && 1
            <= self.requests_per_window && 1 <= self.burst_size
    }
}

impl Default for RateLimitConfig {
    fn default() -> (c: Self)
        ensures
            c.enabled,
            c.requests_per_window == 100_000,
            c.window_secs == 60,
            c.burst_size == 10_000,
            c.per_ip,
            c.per_user,
            c.adaptive,
            rate_limit_config_wf(c),
    {
        RateLimitConfig {
            enabled: true,
            requests_per_window: 100_000,
            window_secs: 60,
            burst_size: 10_000,
            per_ip: true,
            per_user: true,
            adaptive: true,
        }
    }
}

/// Input-validation configuration: one enable flag per pattern category,
/// plus the size ceilings enforced before any pattern runs.
#[derive(Clone, Copy, Debug)]
pub struct ValidationConfig {
    pub enabled: bool,
    pub sql_injection_check: bool,
    pub xss_check: bool,
    pub command_injection_check: bool,
    pub path_traversal_check: bool,
    pub sanitize_input: bool,
    pub max_payload_size: usize,
    pub max_header_size: usize,
}

impl Default for ValidationConfig {
    fn default() -> (c: Self)
        ensures
            c.enabled,
            c.sql_injection_check,
            c.xss_check,
            c.command_injection_check,
            c.path_traversal_check,
            c.sanitize_input,
            c.max_payload_size == 10 * 1024 * 1024,
            c.max_header_size == 8 * 1024,
    {
        ValidationConfig {
            enabled: true,
            sql_injection_check: true,
            xss_check: true,
            command_injection_check: true,
            path_traversal_check: true,
            sanitize_input: true,
            max_payload_size: 10 * 1024 * 1024,
            max_header_size: 8 * 1024,
        }
    }
}

/// Authentication configuration. Authentication is permissive by default:
/// absent credentials fail a request only when `require_auth` is set.
#[derive(Clone, Debug)]
pub struct AuthConfig {
    pub enabled: bool,
    pub require_auth: bool,
    pub jwt_secret: Option<String>,
    pub api_keys: Vec<String>,
    pub token_expiry_secs: u64,
    pub refresh_enabled: bool,
    pub mfa_enabled: bool,
}

impl Default for AuthConfig {
    fn default() -> (c: Self)
        ensures
            c.enabled,
            !c.require_auth,
            c.jwt_secret is None,
            c.api_keys@.len() == 0,
            c.token_expiry_secs == 3600,
            !c.refresh_enabled,
            !c.mfa_enabled,
    {
        AuthConfig {
            enabled: true,
            require_auth: false,
            jwt_secret: None,
            api_keys: Vec::new(),
            token_expiry_secs: 3600,
            refresh_enabled: false,
            mfa_enabled: false,
        }
    }
}

/// Monitoring configuration. The sampling rate is held in permille so it
/// can be stated exactly.
#[derive(Clone, Copy, Debug)]
pub struct MonitoringConfig {
    pub enabled: bool,
    pub log_requests: bool,
    pub log_responses: bool,
    pub log_security_events: bool,
    pub metrics_enabled: bool,
    pub trace_sampling_permille: u32,
}

impl Default for MonitoringConfig {
    fn default() -> (c: Self)
        ensures
            c.enabled,
            c.log_requests,
            !c.log_responses,
            c.log_security_events,
            c.metrics_enabled,
            c.trace_sampling_permille == 100,
    {
        MonitoringConfig {
            enabled: true,
            log_requests: true,
            log_responses: false,
            log_security_events: true,
            metrics_enabled: true,
            trace_sampling_permille: 100,
        }
    }
}

/// Threat-detection configuration.
#[derive(Clone, Copy, Debug)]
pub struct ThreatDetectionConfig {
    pub enabled: bool,
    pub anomaly_detection: bool,
    pub bot_detection: bool,
    pub known_patterns: bool,
    pub block_suspicious: bool,
}

impl Default for ThreatDetectionConfig {
    fn default() -> (c: Self)
        ensures
            c.enabled,
            c.anomaly_detection,
            c.bot_detection,
            c.known_patterns,
            c.block_suspicious,
    {
        ThreatDetectionConfig {
            enabled: true,
            anomaly_detection: true,
            bot_detection: true,
            known_patterns: true,
            block_suspicious: true,
        }
    }
}

/// HTTPS/TLS enforcement configuration.
#[derive(Clone, Copy, Debug)]
pub struct HttpsConfig {
    pub enabled: bool,
    pub require_https: bool,
    pub hsts_max_age: u32,
    pub hsts_include_subdomains: bool,
}

impl Default for HttpsConfig {
    fn default() -> (c: Self)
        ensures
            c.enabled,
            c.require_https,
            c.hsts_max_age == 31_536_000,
            c.hsts_include_subdomains,
    {
        HttpsConfig {
            enabled: true,
            require_https: true,
            hsts_max_age: 31_536_000,
            hsts_include_subdomains: true,
        }
    }
}

/// CORS configuration.
#[derive(Clone, Debug)]
pub struct CorsConfig {
    pub enabled: bool,
    pub allow_origins: Vec<String>,
    pub allow_all_origins: bool,
    pub allow_methods: Vec<String>,
    pub allow_headers: Vec<String>,
    pub allow_credentials: bool,
    pub max_age: u32,
}

impl Default for CorsConfig {
    fn default() -> (c: Self)
        ensures
            c.enabled,
            c.allow_origins@.len() == 1,
            !c.allow_all_origins,
            c.allow_methods@.len() == 6,
            c.allow_headers@.len() == 3,
            c.allow_credentials,
            c.max_age == 86_400,
    {
        let mut allow_origins: Vec<String> = Vec::new();
        allow_origins.push("https://localhost:3000".to_owned());
        let mut allow_methods: Vec<String> = Vec::new();
        allow_methods.push("GET".to_owned());
        allow_methods.push("POST".to_owned());
        allow_methods.push("PUT".to_owned());
        allow_methods.push("DELETE".to_owned());
        allow_methods.push("PATCH".to_owned());
        allow_methods.push("OPTIONS".to_owned());
        let mut allow_headers: Vec<String> = Vec::new();
        allow_headers.push("Content-Type".to_owned());
        allow_headers.push("Authorization".to_owned());
        allow_headers.push("X-API-Key".to_owned());
        CorsConfig {
            enabled: true,
            allow_origins,
            allow_all_origins: false,
            allow_methods,
            allow_headers,
            allow_credentials: true,
            max_age: 86_400,
        }
    }
}

/// CSRF configuration.
#[derive(Clone, Debug)]
pub struct CsrfConfig {
    pub enabled: bool,
    pub token_length: usize,
    pub header_name: String,
    pub param_name: String,
}

impl Default for CsrfConfig {
    fn default() -> (c: Self)
        ensures
            c.enabled,
            c.token_length == 32,
            c.header_name@ == "X-CSRF-Token"@,
            c.param_name@ == "_csrf"@,
    {
        CsrfConfig {
            enabled: true,
            token_length: 32,
            header_name: "X-CSRF-Token".to_owned(),
            param_name: "_csrf".to_owned(),
        }
    }
}

/// Content-Type validation configuration.
#[derive(Clone, Debug)]
pub struct ContentTypeConfig {
    pub enabled: bool,
    pub allowed_types: Vec<String>,
    pub strict_mode: bool,
}

impl Default for ContentTypeConfig {
    fn default() -> (c: Self)
        ensures
            c.enabled,
            c.allowed_types@.len() == 6,
            !c.strict_mode,
    {
        let mut allowed_types: Vec<String> = Vec::new();
        allowed_types.push("application/json".to_owned());
        allowed_types.push("application/x-www-form-urlencoded".to_owned());
        allowed_types.push("multipart/form-data".to_owned());
        allowed_types.push("text/plain".to_owned());
        allowed_types.push("text/xml".to_owned());
        allowed_types.push("application/xml".to_owned());
        ContentTypeConfig { enabled: true, allowed_types, strict_mode: false }
    }
}

/// The documented defaults of the whole configuration, as one predicate.
pub open spec fn security_config_is_default(c: SecurityConfig) -> bool {
    &&& c.rate_limit.enabled
    &&& c.rate_limit.requests_per_window == 100_000
    &&& c.rate_limit.window_secs == 60
    &&& c.rate_limit.burst_size == 10_000
    &&& rate_limit_config_wf(c.rate_limit)
    &&& c.validation.enabled
    &&& c.validation.sql_injection_check
    &&& c.validation.xss_check
    &&& c.validation.command_injection_check
    &&& c.validation.path_traversal_check
    &&& c.validation.sanitize_input
    &&& c.validation.max_payload_size == 10 * 1024 * 1024
    &&& c.validation.max_header_size == 8 * 1024
    &&& c.auth.enabled
    &&& !c.auth.require_auth
    &&& c.auth.jwt_secret is None
    &&& c.auth.api_keys@.len() == 0
    &&& c.auth.token_expiry_secs == 3600
    &&& c.monitoring.enabled
    &&& c.threat_detection.enabled
    &&& c.threat_detection.anomaly_detection
    &&& c.threat_detection.bot_detection
    &&& c.threat_detection.block_suspicious
    &&& c.https.enabled
    &&& c.https.require_https
    &&& c.cors.enabled
    &&& c.csrf.enabled
    &&& c.content_type.enabled
    &&& !c.content_type.strict_mode
}

/// The whole pipeline's configuration.
#[derive(Clone, Debug)]
pub struct SecurityConfig {
    pub rate_limit: RateLimitConfig,
    pub validation: ValidationConfig,
    pub auth: AuthConfig,
    pub monitoring: MonitoringConfig,
    pub threat_detection: ThreatDetectionConfig,
    pub https: HttpsConfig,
    pub cors: CorsConfig,
    pub csrf: CsrfConfig,
    pub content_type: ContentTypeConfig,
}

impl Default for SecurityConfig {
    fn default() -> (c: Self)
        ensures
            security_config_is_default(c),
    {
        SecurityConfig {
            rate_limit: RateLimitConfig::default(),
            validation: ValidationConfig::default(),
            auth: AuthConfig::default(),
            monitoring: MonitoringConfig::default(),
            threat_detection: ThreatDetectionConfig::default(),
            https: HttpsConfig::default(),
            cors: CorsConfig::default(),
            csrf: CsrfConfig::default(),
            content_type: ContentTypeConfig::default(),
        }
    }
}

impl SecurityConfig {
    /// A fresh configuration with every documented default.
    pub fn new() -> (c: Self)
        ensures
            security_config_is_default(c),
    {
        Self::default()
    }

    /// Configure rate limiting: `requests` per window of `window_secs`
    /// seconds, with the burst capacity set to the per-window count.
    pub fn with_rate_limit(self, requests: u32, window_secs: u64) -> (c: Self)
        requires
            1 <= requests,
            1 <= window_secs <= 31_536_000,
        ensures
            c.rate_limit.enabled,
            c.rate_limit.requests_per_window == requests,
            c.rate_limit.window_secs == window_secs,
            c.rate_limit.burst_size == requests,
            c.rate_limit.per_ip == self.rate_limit.per_ip,
            c.rate_limit.per_user == self.rate_limit.per_user,
            c.rate_limit.adaptive == self.rate_limit.adaptive,
            rate_limit_config_wf(c.rate_limit),
            c.validation == self.validation,
            c.auth == self.auth,
            c.monitoring == self.monitoring,
            c.threat_detection == self.threat_detection,
            c.https == self.https,
            c.cors == self.cors,
            c.csrf == self.csrf,
            c.content_type == self.content_type,
    {
        let mut c = self;
        c.rate_limit.requests_per_window = requests;
        c.rate_limit.window_secs = window_secs;
        c.rate_limit.burst_size = requests;
        c.rate_limit.enabled = true;
        c
    }

    /// Enable JWT validation with the given shared secret; authentication
    /// becomes mandatory.
    pub fn with_jwt_validation(self, secret: String) -> (c: Self)
        ensures
            c.auth.jwt_secret == Some(secret),
            c.auth.require_auth,
            c.auth.enabled == self.auth.enabled,
            c.rate_limit == self.rate_limit,
            c.validation == self.validation,
            c.threat_detection == self.threat_detection,
    {
        let mut c = self;
        c.auth.jwt_secret = Some(secret);
        c.auth.require_auth = true;
        c
    }

    /// Switch input sanitization on or off.
    pub fn with_input_sanitization(self, enabled: bool) -> (c: Self)
        ensures
            c.validation.sanitize_input == enabled,
            c.rate_limit == self.rate_limit,
            c.auth == self.auth,
            c.threat_detection == self.threat_detection,
    {
        let mut c = self;
        c.validation.sanitize_input = enabled;
        c
    }

    /// Strict mode: force every validation and threat-detection sub-flag on
    /// simultaneously.
    pub fn strict_mode(self) -> (c: Self)
        ensures
            c.validation.sql_injection_check,
            c.validation.xss_check,
            c.validation.command_injection_check,
            c.validation.path_traversal_check,
            c.validation.sanitize_input,
            c.validation.enabled == self.validation.enabled,
            c.validation.max_payload_size == self.validation.max_payload_size,
            c.validation.max_header_size == self.validation.max_header_size,
            c.threat_detection.anomaly_detection,
            c.threat_detection.bot_detection,
            c.rate_limit == self.rate_limit,
            c.auth == self.auth,
    {
        let mut c = self;
        c.validation.sql_injection_check = true;
        c.validation.xss_check = true;
        c.validation.command_injection_check = true;
        c.validation.path_traversal_check = true;
        c.validation.sanitize_input = true;
        c.threat_detection.anomaly_detection = true;
        c.threat_detection.bot_detection = true;
        c
    }
}

} // verus!
