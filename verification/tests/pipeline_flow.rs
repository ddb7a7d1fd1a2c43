//! Tests for the whole pipeline: stage order, first-failure semantics,
//! rate limiting through the pipeline, query decoding, and JWT
//! authentication through the external codec.

use secureapis::auth::AuthManager;
use secureapis::config::SecurityConfig;
use secureapis::errors::SecurityError;
use secureapis::pipeline::SecurityLayer;
use secureapis::request::{ApiRequest, HttpVersion};

fn request(method: &str, uri: &str, headers: Vec<(&str, &str)>) -> ApiRequest {
    ApiRequest {
        method: method.to_string(),
        uri: uri.to_string(),
        version: HttpVersion::Http11,
        headers: headers
            .into_iter()
            .map(|(k, v)| (k.to_string(), v.to_string()))
            .collect(),
        body_length: None,
    }
}

fn plain_config() -> SecurityConfig {
    // The tests drive plain HTTP requests, so transport enforcement is
    // turned off; everything else keeps its defaults.
    let mut config = SecurityConfig::new().strict_mode();
    config.https.require_https = false;
    config
}

fn process(
    layer: &mut SecurityLayer,
    req: &ApiRequest,
    now_ms: u64,
) -> Result<secureapis::context::SecurityContext, SecurityError> {
    layer.process_request_at(
        req,
        "req-1".to_string(),
        "192.168.1.50".to_string(),
        now_ms,
        now_ms / 1000,
    )
}

#[test]
fn test_rate_limiting_integration() {
    let config = plain_config().with_rate_limit(5, 60);
    let mut layer = SecurityLayer::new(config);

    let req = request("GET", "/api/test", vec![("x-forwarded-for", "192.168.1.100")]);

    for i in 0..5 {
        let result = process(&mut layer, &req, 1_000_000);
        assert!(result.is_ok(), "request {} should succeed", i + 1);
    }

    let result = process(&mut layer, &req, 1_000_000);
    match result {
        Err(SecurityError::RateLimitExceeded { .. }) => {}
        _ => panic!("sixth request should be rate limited"),
    }
}

#[test]
fn integration_tests_test_sql_injection_detection() {
    let mut layer = SecurityLayer::new(plain_config());

    let malicious_uris = vec![
        "/api/user?id=%27%20OR%20%271%27%3D%271",
        "/api/user?id=admin%27--",
        "/api/user?id=1%3B%20DROP%20TABLE%20users%3B",
        "/api/user?id=UNION%20SELECT%20%2A%20FROM%20passwords",
    ];

    for uri in malicious_uris {
        let req = request("GET", uri, vec![]);
        let result = process(&mut layer, &req, 1_000);
        assert!(result.is_err(), "SQL injection should be detected: {}", uri);
    }
}

#[test]
fn integration_tests_test_xss_detection() {
    let mut layer = SecurityLayer::new(plain_config());

    let xss_uris = vec![
        "/api/comment?text=%3Cscript%3Ealert%28%27xss%27%29%3C%2Fscript%3E",
        "/api/comment?text=%3Cimg%20src%3Dx%20onerror%3Dalert%281%29%3E",
        "/api/comment?text=javascript%3Aalert%281%29",
        "/api/comment?text=%3Ciframe%20src%3D%27evil.com%27%3E%3C%2Fiframe%3E",
    ];

    for uri in xss_uris {
        let req = request("GET", uri, vec![]);
        let result = process(&mut layer, &req, 1_000);
        assert!(result.is_err(), "XSS should be detected: {}", uri);
    }
}

#[test]
fn integration_tests_test_path_traversal_detection() {
    let mut layer = SecurityLayer::new(plain_config());

    let malicious_uris = vec![
        "/api/file?path=..%2F..%2Fetc%2Fpasswd",
        "/api/file?path=..%5C..%5Cwindows%5Csystem32",
        "/api/file?path=%2Fetc%2Fshadow",
    ];

    for uri in malicious_uris {
        let req = request("GET", uri, vec![]);
        let result = process(&mut layer, &req, 1_000);
        assert!(result.is_err(), "path traversal should be detected: {}", uri);
    }
}

#[test]
fn integration_tests_test_command_injection_detection() {
    let mut layer = SecurityLayer::new(plain_config());

    let malicious_uris = vec![
        "/api/process?file=file.txt%3B%20rm%20-rf%20%2F",
        "/api/process?file=%24%28whoami%29",
        "/api/process?file=%60cat%20%2Fetc%2Fpasswd%60",
        "/api/process?file=file.txt%20%26%26%20cat%20%2Fetc%2Fpasswd",
    ];

    for uri in malicious_uris {
        let req = request("GET", uri, vec![]);
        let result = process(&mut layer, &req, 1_000);
        assert!(result.is_err(), "command injection should be detected: {}", uri);
    }
}

#[test]
fn test_valid_requests_pass_through() {
    let mut layer = SecurityLayer::new(plain_config());

    let valid_uris = vec![
        "/api/users",
        "/api/posts?page=1&limit=10",
        "/api/search?q=hello+world",
        "/health",
    ];

    for uri in valid_uris {
        let req = request("GET", uri, vec![]);
        let result = process(&mut layer, &req, 1_000);
        assert!(result.is_ok(), "valid request should pass: {}", uri);
    }
}

#[test]
fn test_jwt_authentication() {
    let secret = "test-secret-key";
    let mut config = plain_config().with_jwt_validation(secret.to_string());
    config.auth.token_expiry_secs = 3600;

    let auth_manager = AuthManager::new(config.auth.clone());
    // The external token codec checks expiry against the real clock, so
    // the token must be issued relative to it.
    let now_secs: u64 = secureapis::replay_protection::ReplayProtection::get_current_timestamp();
    let token = auth_manager
        .generate_token("user123".to_string(), vec!["user".to_string()], now_secs)
        .unwrap();

    let mut layer = SecurityLayer::new(config);

    let auth_header = format!("Bearer {}", token);
    let req = request("GET", "/api/protected", vec![("authorization", &auth_header)]);
    let result = layer.process_request_at(
        &req,
        "req-jwt".to_string(),
        "10.0.0.9".to_string(),
        now_secs * 1000,
        now_secs,
    );

    let context = result.expect("valid JWT should be accepted");
    assert!(context.authenticated, "user should be authenticated");
    assert_eq!(context.user_id, Some("user123".to_string()));
}

#[test]
fn encoded_sql_in_query_rejects_before_later_stages() {
    // Scenario: a URL-encoded UNION SELECT in the query, SQL category on.
    let mut layer = SecurityLayer::new(plain_config());

    let req = request(
        "GET",
        "/api/user?id=1%27%20UNION%20SELECT%20name%20FROM%20users",
        vec![("x-timestamp", "not-a-number")],
    );
    let result = process(&mut layer, &req, 1_000);
    match result {
        Err(SecurityError::InvalidInput { field, .. }) => {
            assert_eq!(field.as_deref(), Some("query"));
        }
        _ => panic!("encoded SQL injection in the query should be rejected"),
    }
}

#[test]
fn pipeline_with_disabled_rate_limit_keeps_no_buckets() {
    let mut config = plain_config();
    config.rate_limit.enabled = false;
    let mut layer = SecurityLayer::new(config);

    for _ in 0..10 {
        let req = request("GET", "/api/users", vec![]);
        assert!(process(&mut layer, &req, 2_000).is_ok());
    }
    assert_eq!(layer.rate_limiter.stats().active_buckets, 0);
}

#[test]
fn pipeline_rejects_http09() {
    let mut layer = SecurityLayer::new(plain_config());
    let mut req = request("GET", "/api/users", vec![]);
    req.version = HttpVersion::Http09;
    let result = process(&mut layer, &req, 1_000);
    match result {
        Err(SecurityError::InvalidInput { field, .. }) => {
            assert_eq!(field.as_deref(), Some("version"));
        }
        _ => panic!("HTTP/0.9 should be rejected"),
    }
}

#[test]
fn pipeline_rejects_disallowed_origin() {
    let mut layer = SecurityLayer::new(plain_config());
    let req = request("GET", "/api/users", vec![("origin", "https://evil.example")]);
    let result = process(&mut layer, &req, 1_000);
    match result {
        Err(SecurityError::CorsViolation(_)) => {}
        _ => panic!("a disallowed origin should be rejected"),
    }
}

#[test]
fn pipeline_requires_csrf_token_for_post() {
    let mut layer = SecurityLayer::new(plain_config());
    let req = request("POST", "/api/users", vec![("content-type", "application/json")]);
    let result = process(&mut layer, &req, 1_000);
    match result {
        Err(SecurityError::CsrfViolation(m)) => {
            assert_eq!(m, "CSRF token missing from request");
        }
        _ => panic!("a POST without a CSRF token should be rejected"),
    }
}

#[test]
fn pipeline_requires_https_when_configured() {
    let config = SecurityConfig::new().strict_mode();
    assert!(config.https.require_https);
    let mut layer = SecurityLayer::new(config);

    let plain = request("GET", "/api/users", vec![]);
    match process(&mut layer, &plain, 1_000) {
        Err(SecurityError::TransportLayerViolation(_)) => {}
        _ => panic!("a plain request should fail transport policy"),
    }

    let forwarded = request("GET", "/api/users", vec![("x-forwarded-proto", "https")]);
    assert!(process(&mut layer, &forwarded, 1_000).is_ok());
}
