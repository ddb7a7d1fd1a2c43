//! Tests for error responses, detail gating, message sanitization, and
//! authentication helpers.

use secureapis::auth::AuthManager;
use secureapis::auth::UserContext;
use secureapis::config::AuthConfig;
use secureapis::content_type::ContentTypeValidator;
use secureapis::error_handling::{ErrorHandler, SafeErrorResponse};
use secureapis::errors::SecurityError;
use secureapis::headers::SecurityHeaders;
use secureapis::threats::ThreatDetector;

#[test]
fn test_should_expose_details() {
    assert!(ErrorHandler::should_expose_details(30, true));
    assert!(!ErrorHandler::should_expose_details(60, true));
    assert!(!ErrorHandler::should_expose_details(30, false));
}

#[test]
fn test_sanitized_error_message() {
    let message = "Error at C:\\Users\\admin\\secret.rs";
    let sanitized = ErrorHandler::sanitize_error_message(message);
    assert!(!sanitized.contains("C:\\"));
    assert!(!sanitized.contains("Users"));
}

#[test]
fn test_generic_error_creation() {
    let error = ErrorHandler::generic_error("req-123", 500);
    assert_eq!(error.code, "INTERNAL_ERROR");
    assert_eq!(error.request_id, "req-123");
}

#[test]
fn safe_response_maps_each_error_kind() {
    let e = SecurityError::RateLimitExceeded { retry_after: 12 };
    let r = SafeErrorResponse::from_security_error(&e, "req-9".to_string(), true);
    assert_eq!(r.error, "Rate limit exceeded");
    assert_eq!(r.code, "RATE_LIMIT_EXCEEDED");
    assert!(r.details.is_some());

    let e = SecurityError::InternalError("secret stack trace".to_string());
    let r = SafeErrorResponse::from_security_error(&e, "req-9".to_string(), true);
    assert_eq!(r.error, "Internal server error");
    assert_eq!(r.code, "INTERNAL_ERROR");
    assert!(r.details.is_none());

    let e = SecurityError::HttpsRequired;
    let r = SafeErrorResponse::from_security_error(&e, "req-9".to_string(), false);
    assert_eq!(r.code, "HTTPS_REQUIRED");
    assert!(r.details.is_none());
}

#[test]
fn rate_limit_error_carries_the_retry_hint() {
    let (response, retry) = ErrorHandler::rate_limit_error("req-7", 12);
    assert_eq!(retry, 12);
    assert_eq!(response.code, "RATE_LIMIT_EXCEEDED");
    assert_eq!(response.details.as_deref(), Some("Please retry after 12 seconds"));
}

#[test]
fn test_api_key_hashing() {
    let key1 = "test-api-key-123";
    let key2 = "test-api-key-456";

    let hash1 = AuthManager::hash_api_key(key1);
    let hash2 = AuthManager::hash_api_key(key2);

    assert_eq!(hash1, AuthManager::hash_api_key(key1));
    assert_ne!(hash1, hash2);
}

#[test]
fn auth_test_token_generation() {
    let config = AuthConfig {
        enabled: true,
        require_auth: false,
        jwt_secret: Some("test-secret-key".to_string()),
        api_keys: vec![],
        token_expiry_secs: 3600,
        refresh_enabled: false,
        mfa_enabled: false,
    };

    let manager = AuthManager::new(config);
    let token = manager
        .generate_token("user123".to_string(), vec!["admin".to_string()], 1_700_000_000)
        .unwrap();

    assert!(!token.is_empty());
}

#[test]
fn token_generation_without_secret_is_a_config_error() {
    let manager = AuthManager::new(AuthConfig::default());
    let result = manager.generate_token("user123".to_string(), vec![], 1_700_000_000);
    assert!(matches!(result, Err(SecurityError::ConfigError(_))));
}

#[test]
fn authorize_checks_roles() {
    let manager = AuthManager::new(AuthConfig::default());
    let user = UserContext {
        user_id: "u1".to_string(),
        roles: vec!["reader".to_string(), "admin".to_string()],
        email: None,
    };
    assert!(manager.authorize(&user, "admin").is_ok());
    assert!(matches!(
        manager.authorize(&user, "owner"),
        Err(SecurityError::AuthorizationFailed(_))
    ));
}

#[test]
fn api_key_authentication_round_trip() {
    let config = AuthConfig {
        enabled: true,
        require_auth: true,
        jwt_secret: None,
        api_keys: vec!["valid-key".to_string()],
        token_expiry_secs: 3600,
        refresh_enabled: false,
        mfa_enabled: false,
    };
    let manager = AuthManager::new(config);

    let good = secureapis::request::ApiRequest {
        method: "GET".to_string(),
        uri: "/".to_string(),
        version: secureapis::request::HttpVersion::Http11,
        headers: vec![("x-api-key".to_string(), "valid-key".to_string())],
        body_length: None,
    };
    let user = manager.authenticate(&good, 0).unwrap().unwrap();
    assert!(user.user_id.starts_with("apikey_"));
    assert_eq!(user.roles, vec!["api_user".to_string()]);

    let bad = secureapis::request::ApiRequest {
        method: "GET".to_string(),
        uri: "/".to_string(),
        version: secureapis::request::HttpVersion::Http11,
        headers: vec![("x-api-key".to_string(), "wrong-key".to_string())],
        body_length: None,
    };
    assert!(matches!(
        manager.authenticate(&bad, 0),
        Err(SecurityError::AuthenticationFailed(_))
    ));
}

#[test]
fn test_content_type_format_validation() {
    assert!(ContentTypeValidator::is_valid_content_type("application/json"));
    assert!(ContentTypeValidator::is_valid_content_type(
        "application/json; charset=utf-8"
    ));
    assert!(!ContentTypeValidator::is_valid_content_type("invalid"));
    assert!(!ContentTypeValidator::is_valid_content_type(""));
}

#[test]
fn test_allowed_types() {
    let validator = ContentTypeValidator::new();
    assert!(validator.is_allowed_type("application/json"));
    assert!(validator.is_allowed_type("application/json; charset=utf-8"));
    assert!(!validator.is_allowed_type("application/octet-stream"));
}

#[test]
fn hsts_header_renders_the_exact_value() {
    assert_eq!(
        SecurityHeaders::get_hsts_header(600, true),
        "max-age=600; includeSubDomains; preload"
    );
    assert_eq!(
        SecurityHeaders::get_hsts_header(0, false),
        "max-age=0; preload"
    );
}

#[test]
fn bot_user_agents_are_flagged() {
    let detector = ThreatDetector::new(true);
    assert!(detector.is_bot_user_agent("curl/8.0"));
    assert!(detector.is_bot_user_agent("GoogleBot/2.1"));
    assert!(!detector.is_bot_user_agent("Mozilla/5.0 (X11; Linux x86_64)"));
}

#[test]
fn sanitizer_strips_drive_and_directory_paths() {
    assert_eq!(ErrorHandler::sanitize_error_message("c:/secret"), "[REDACTED]");
    assert_eq!(
        ErrorHandler::sanitize_error_message("/home/alice/x"),
        "[REDACTED]/x"
    );
    assert_eq!(
        ErrorHandler::sanitize_error_message("Error at C:\\Users\\admin\\secret.rs"),
        "Error at [REDACTED]/admin/secret.rs"
    );
    assert_eq!(ErrorHandler::sanitize_error_message("a plain note"), "a plain note");
}

#[test]
fn sanitizer_redacts_words_only_at_boundaries() {
    assert_eq!(ErrorHandler::sanitize_error_message("the etc stays out"), "the [REDACTED] stays out");
    assert_eq!(ErrorHandler::sanitize_error_message("sketchy"), "sketchy");
}
