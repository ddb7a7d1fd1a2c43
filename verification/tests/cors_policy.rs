//! Tests for the CORS origin policy, including wildcard subdomains.

use secureapis::cors::CorsEnforcer;

#[test]
fn test_origin_validation() {
    let enforcer = CorsEnforcer::new()
        .add_allowed_origin("https://example.com".to_string())
        .add_allowed_origin("https://app.example.com".to_string());

    assert!(enforcer.is_origin_allowed("https://example.com"));
    assert!(enforcer.is_origin_allowed("https://app.example.com"));
    assert!(!enforcer.is_origin_allowed("https://evil.com"));
}

#[test]
fn test_wildcard_origin() {
    let enforcer = CorsEnforcer::new().add_allowed_origin("https://*.example.com".to_string());

    assert!(enforcer.is_origin_allowed("https://app.example.com"));
    assert!(enforcer.is_origin_allowed("https://api.example.com"));
}

#[test]
fn wildcard_origin_rejects_other_domains() {
    let enforcer = CorsEnforcer::new().add_allowed_origin("https://*.example.com".to_string());

    assert!(!enforcer.is_origin_allowed("https://example.org"));
    assert!(!enforcer.is_origin_allowed("http://app.example.com"));
    assert!(!enforcer.is_origin_allowed("https://badexample.com"));
}

#[test]
fn allow_all_origins_allows_everything() {
    let enforcer = CorsEnforcer::new().allow_all_origins();
    assert!(enforcer.is_origin_allowed("https://anything.at.all"));
}
