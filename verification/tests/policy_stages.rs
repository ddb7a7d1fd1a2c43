//! Tests for the per-stage policy checks: headers, HTTPS, methods,
//! cookies, CSRF, request constraints and IP reputation.

use secureapis::context::SecurityContext;
use secureapis::request::{ApiRequest, HttpVersion};
use secureapis::threats::{ThreatDetector, ThreatSeverity};
use secureapis::cookie_security::CookieSecurity;
use secureapis::csrf::CsrfProtection;
use secureapis::headers::SecurityHeaders;
use secureapis::https::HttpsEnforcer;
use secureapis::ip_reputation::IpReputation;
use secureapis::method_validator::MethodValidator;
use secureapis::replay_protection::ReplayProtection;
use secureapis::request_constraints::RequestConstraints;

#[test]
fn test_header_validation() {
    assert!(SecurityHeaders::is_valid_header_name("X-Custom-Header"));
    assert!(SecurityHeaders::is_valid_header_name("Content-Type"));
    assert!(!SecurityHeaders::is_valid_header_name("Invalid\nHeader"));
    assert!(!SecurityHeaders::is_valid_header_name("Invalid\rHeader"));
}

#[test]
fn test_header_value_validation() {
    assert!(SecurityHeaders::is_valid_header_value("safe-value"));
    assert!(!SecurityHeaders::is_valid_header_value("unsafe\r\nvalue"));
    assert!(!SecurityHeaders::is_valid_header_value("unsafe\nvalue"));
}

#[test]
fn test_header_sanitization() {
    assert_eq!(
        SecurityHeaders::sanitize_header_value("test\r\nvalue"),
        "testvalue"
    );
    assert_eq!(
        SecurityHeaders::sanitize_header_value("test\nvalue"),
        "testvalue"
    );
}

#[test]
fn test_csp_generation() {
    let csp = SecurityHeaders::get_csp_header(false);
    assert!(csp.contains("default-src 'self'"));
    assert!(csp.contains("script-src 'self'"));
}

#[test]
fn test_hsts_header_generation() {
    let enforcer = HttpsEnforcer::new(true);
    let header = enforcer.get_hsts_header();

    assert!(header.contains("max-age=31536000"));
    assert!(header.contains("includeSubDomains"));
    assert!(header.contains("preload"));
}

#[test]
fn test_method_validation() {
    let validator = MethodValidator::new();
    assert!(validator.is_method_allowed("GET"));
    assert!(validator.is_method_allowed("post"));
    assert!(!validator.is_method_allowed("INVALID"));
}

#[test]
fn test_restricted_methods() {
    let validator = MethodValidator::new().restrict_to(vec!["GET", "POST"]);
    assert!(validator.is_method_allowed("GET"));
    assert!(validator.is_method_allowed("POST"));
    assert!(!validator.is_method_allowed("DELETE"));
}

#[test]
fn test_cookie_format_validation() {
    let cookie_security = CookieSecurity::new();
    let mut context = SecurityContext::new("test".to_string(), "127.0.0.1".to_string());

    let valid_headers = vec![
        "sessionid=abc123; Path=/; SameSite=Strict; Secure; HttpOnly",
        "user=john; SameSite=Lax; Secure; HttpOnly",
    ];

    for header in valid_headers {
        let result = cookie_security.validate_set_cookie_headers(vec![header], &mut context);
        assert!(result.is_ok());
    }
}

#[test]
fn test_samesite_none_requires_secure() {
    let cookie_security = CookieSecurity::new();
    let mut context = SecurityContext::new("test".to_string(), "127.0.0.1".to_string());

    let result = cookie_security
        .validate_set_cookie_headers(vec!["sessionid=abc123; SameSite=None"], &mut context);

    assert!(result.is_err());
}

#[test]
fn test_token_format_validation() {
    assert!(CsrfProtection::is_valid_token_format(
        "abcd1234abcd1234abcd1234abcd1234"
    ));
    assert!(!CsrfProtection::is_valid_token_format("short"));
    assert!(!CsrfProtection::is_valid_token_format("token\nwith\ninjection"));
}

#[test]
fn test_samesite_validation() {
    assert!(CsrfProtection::validate_samesite_cookie(
        "sessionid=abc; Path=/; SameSite=Strict"
    ));
    assert!(CsrfProtection::validate_samesite_cookie(
        "sessionid=abc; Path=/; SameSite=Lax"
    ));
    assert!(!CsrfProtection::validate_samesite_cookie("sessionid=abc; Path=/"));
}

#[test]
fn csrf_test_token_generation() {
    let token = CsrfProtection::generate_token();
    assert_eq!(token.len(), 32);
    assert!(token.chars().all(|c| c.is_ascii_alphanumeric()));
}

#[test]
fn test_ip_validation() {
    assert!(IpReputation::is_valid_ipv4("192.168.1.1"));
    assert!(IpReputation::is_valid_ipv4("8.8.8.8"));
    assert!(!IpReputation::is_valid_ipv4("256.1.1.1"));
    assert!(!IpReputation::is_valid_ipv4("192.168.1"));
}

#[test]
fn test_ipv6_validation() {
    assert!(IpReputation::is_valid_ipv6(
        "2001:0db8:85a3:0000:0000:8a2e:0370:7334"
    ));
    assert!(IpReputation::is_valid_ipv6("::1"));
    assert!(!IpReputation::is_valid_ipv6("not-an-ip"));
}

#[test]
fn test_blacklist_whitelist() {
    let reputation = IpReputation::new()
        .blacklist_ip("192.168.1.100".to_string())
        .whitelist_ip("10.0.0.1".to_string());

    assert!(reputation.is_blacklisted("192.168.1.100"));
    assert!(reputation.is_whitelisted("10.0.0.1"));
}

#[test]
fn test_timestamp_validation() {
    let protection = ReplayProtection::new().with_timestamp_window(300);
    let mut context = SecurityContext::new("test".to_string(), "127.0.0.1".to_string());

    let now = ReplayProtection::get_current_timestamp();

    assert!(protection.validate_timestamp_at(now, now, &mut context).is_ok());
    assert!(protection
        .validate_timestamp_at(now - 60, now, &mut context)
        .is_ok());
    assert!(protection
        .validate_timestamp_at(now - 600, now, &mut context)
        .is_err());
}

#[test]
fn test_nonce_generation() {
    let nonce = ReplayProtection::generate_nonce();
    assert_eq!(nonce.len(), 32);
    assert!(nonce.chars().all(|c| c.is_ascii_hexdigit()));
}

#[test]
fn test_nonce_validation() {
    let mut protection = ReplayProtection::new();
    let mut context = SecurityContext::new("test".to_string(), "127.0.0.1".to_string());

    let nonce = ReplayProtection::generate_nonce();
    let now = ReplayProtection::get_current_timestamp();

    assert!(protection
        .validate_nonce_at(&nonce, "client1", now, &mut context)
        .is_ok());
    assert!(protection
        .validate_nonce_at(&nonce, "client1", now, &mut context)
        .is_err());
}

#[test]
fn test_uri_length_validation() {
    let constraints = RequestConstraints::new().with_max_uri_length(1000);
    assert_eq!(constraints.max_uri_length, 1000);
}

#[test]
fn test_timeout_check() {
    let constraints = RequestConstraints::new().with_request_timeout(5);

    assert!(constraints.check_request_timeout(3).is_ok());
    assert!(constraints.check_request_timeout(10).is_err());
}

#[test]
fn blacklisted_ip_is_rejected_with_score() {
    let reputation = IpReputation::new().blacklist_ip("203.0.113.9".to_string());
    let mut context = SecurityContext::new("r".to_string(), "203.0.113.9".to_string());
    let req = ApiRequest {
        method: "GET".to_string(),
        uri: "/".to_string(),
        version: HttpVersion::Http11,
        headers: vec![],
        body_length: None,
    };
    match reputation.check_ip_reputation(&req, &mut context) {
        Err(secureapis::errors::SecurityError::IpBlocked(_)) => {}
        _ => panic!("a blacklisted address should be rejected"),
    }
    assert_eq!(context.threat_score, 80);
}

#[test]
fn whitelisted_ip_passes_even_when_blacklisted() {
    let reputation = IpReputation::new()
        .blacklist_ip("203.0.113.9".to_string())
        .whitelist_ip("203.0.113.9".to_string());
    let mut context = SecurityContext::new("r".to_string(), "203.0.113.9".to_string());
    let req = ApiRequest {
        method: "GET".to_string(),
        uri: "/".to_string(),
        version: HttpVersion::Http11,
        headers: vec![],
        body_length: None,
    };
    assert!(reputation.check_ip_reputation(&req, &mut context).is_ok());
}

#[test]
fn proxy_chain_indicators_are_rejected() {
    let reputation = IpReputation::new();
    let mut context = SecurityContext::new("r".to_string(), "198.51.100.4".to_string());

    let vpnish = ApiRequest {
        method: "GET".to_string(),
        uri: "/".to_string(),
        version: HttpVersion::Http11,
        headers: vec![(
            "x-forwarded-for".to_string(),
            "1.1.1.1, 2.2.2.2, 3.3.3.3".to_string(),
        )],
        body_length: None,
    };
    match reputation.check_ip_reputation(&vpnish, &mut context) {
        Err(secureapis::errors::SecurityError::VpnDetected(_)) => {}
        _ => panic!("a long forwarded-for chain should look like a VPN"),
    }

    let proxied = ApiRequest {
        method: "GET".to_string(),
        uri: "/".to_string(),
        version: HttpVersion::Http11,
        headers: vec![("via".to_string(), "1.1 cache-3".to_string())],
        body_length: None,
    };
    let mut context2 = SecurityContext::new("r".to_string(), "198.51.100.4".to_string());
    match reputation.check_ip_reputation(&proxied, &mut context2) {
        Err(secureapis::errors::SecurityError::ProxyDetected(_)) => {}
        _ => panic!("a Via header should look like a proxy"),
    }
}

#[test]
fn connection_time_budget_is_enforced() {
    let constraints = RequestConstraints::new();
    assert!(constraints.check_connection_time(599).is_ok());
    assert!(matches!(
        constraints.check_connection_time(601),
        Err(secureapis::errors::SecurityError::ConnectionTimeout(_))
    ));
}

#[test]
fn threat_analysis_bands_severity_by_score() {
    let detector = ThreatDetector::new(true);

    let mut low = SecurityContext::new("r".to_string(), "h".to_string());
    low.add_threat_score(15);
    assert!(matches!(detector.analyze(None, &low).severity, ThreatSeverity::Low));

    let mut medium = SecurityContext::new("r".to_string(), "h".to_string());
    medium.add_threat_score(35);
    assert!(matches!(detector.analyze(None, &medium).severity, ThreatSeverity::Medium));

    let mut critical = SecurityContext::new("r".to_string(), "h".to_string());
    critical.add_threat_score(90);
    let analysis = detector.analyze(None, &critical);
    assert!(matches!(analysis.severity, ThreatSeverity::Critical));
    assert!(analysis.is_threat);
}

#[test]
fn ipv4_groups_parse_as_bytes() {
    // Groups are accepted exactly as an unsigned byte parse accepts them:
    // leading zeros and a leading plus included.
    assert!(IpReputation::is_valid_ipv4("1.2.3.0255"));
    assert!(IpReputation::is_valid_ipv4("+1.2.3.4"));
    assert!(IpReputation::is_valid_ipv4("0.0.0.0"));
    assert!(!IpReputation::is_valid_ipv4("1.2.3.256"));
    assert!(!IpReputation::is_valid_ipv4("1.2.3."));
    assert!(!IpReputation::is_valid_ipv4("1.2.3.+"));
}
