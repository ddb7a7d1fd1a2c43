//! Tests for the validation engine: the four core pattern families, the
//! advanced families, the sanitizer, and the scan's short-circuit order.

use secureapis::advanced_validation::AdvancedValidator;
use secureapis::config::ValidationConfig;
use secureapis::context::SecurityContext;
use secureapis::errors::SecurityError;
use secureapis::validation::InputValidator;

fn ctx() -> SecurityContext {
    SecurityContext::new("test".to_string(), "127.0.0.1".to_string())
}

#[test]
fn validation_test_sql_injection_detection() {
    let config = ValidationConfig::default();
    let validator = InputValidator::new(config);

    assert!(validator.contains_sql_injection("' OR '1'='1"));
    assert!(validator.contains_sql_injection("admin'--"));
    assert!(validator.contains_sql_injection("1 UNION SELECT * FROM users"));
    assert!(validator.contains_sql_injection("; DROP TABLE users;"));

    assert!(!validator.contains_sql_injection("normal query string"));
}

#[test]
fn validation_test_xss_detection() {
    let config = ValidationConfig::default();
    let validator = InputValidator::new(config);

    assert!(validator.contains_xss("<script>alert('xss')</script>"));
    assert!(validator.contains_xss("<img src=x onerror=alert(1)>"));
    assert!(validator.contains_xss("javascript:alert(1)"));
    assert!(validator.contains_xss("<iframe src='evil.com'></iframe>"));

    assert!(!validator.contains_xss("normal text content"));
}

#[test]
fn validation_test_command_injection_detection() {
    let config = ValidationConfig::default();
    let validator = InputValidator::new(config);

    assert!(validator.contains_command_injection("file.txt; rm -rf /"));
    assert!(validator.contains_command_injection("$(whoami)"));
    assert!(validator.contains_command_injection("`cat /etc/passwd`"));
    assert!(validator.contains_command_injection("file.txt && cat /etc/passwd"));

    assert!(!validator.contains_command_injection("normal-filename.txt"));
}

#[test]
fn validation_test_path_traversal_detection() {
    let config = ValidationConfig::default();
    let validator = InputValidator::new(config);

    assert!(validator.contains_path_traversal("../../etc/passwd"));
    assert!(validator.contains_path_traversal("..\\..\\windows\\system32"));
    assert!(validator.contains_path_traversal("/etc/passwd"));

    assert!(!validator.contains_path_traversal("normal/path/file.txt"));
}

#[test]
fn test_sanitization() {
    let config = ValidationConfig::default();
    let validator = InputValidator::new(config);

    assert_eq!(
        validator.sanitize("<script>alert('test')</script>"),
        "&lt;script&gt;alert(&#x27;test&#x27;)&lt;/script&gt;"
    );
    assert_eq!(validator.sanitize("normal text"), "normal text");
}

#[test]
fn sanitize_is_idempotent_on_concrete_inputs() {
    let config = ValidationConfig::default();
    let validator = InputValidator::new(config);

    let inputs = [
        "<script>alert('test')</script>",
        "a & b < c > d \" e ' f",
        "already &amp; escaped &lt;tag&gt;",
        "plain text with nothing special",
        "\u{0}null\u{0}bytes\u{0}",
    ];
    for input in inputs {
        let once = validator.sanitize(input);
        let twice = validator.sanitize(&once);
        assert_eq!(once, twice);
    }
}

#[test]
fn scan_reports_sql_injection_with_field() {
    let validator = InputValidator::new(ValidationConfig::default());
    let mut context = ctx();

    let result = validator.validate_string("id=1' OR '1'='1", "query", &mut context);
    match result {
        Err(SecurityError::InvalidInput { reason, field }) => {
            assert_eq!(reason, "Potential SQL injection detected");
            assert_eq!(field.as_deref(), Some("query"));
        }
        other => panic!("expected InvalidInput, got {:?}", other.is_ok()),
    }
    assert_eq!(context.threat_score, 40);
}

#[test]
fn scan_short_circuits_on_xss_before_later_categories() {
    let validator = InputValidator::new(ValidationConfig::default());
    let mut context = ctx();

    // Contains both an XSS marker and a path-traversal marker: the XSS
    // category is checked earlier and must win.
    let result = validator.validate_string("<script src=/etc/passwd>", "body", &mut context);
    match result {
        Err(SecurityError::InvalidInput { reason, .. }) => {
            assert_eq!(reason, "Potential XSS attack detected");
        }
        other => panic!("expected InvalidInput, got {:?}", other.is_ok()),
    }
    assert_eq!(context.threat_score, 35);
}

#[test]
fn scan_passes_clean_input_without_scoring() {
    let validator = InputValidator::new(ValidationConfig::default());
    let mut context = ctx();

    assert!(validator
        .validate_string("hello world, a perfectly boring string", "query", &mut context)
        .is_ok());
    assert_eq!(context.threat_score, 0);
}

#[test]
fn disabled_categories_are_not_consulted() {
    let mut config = ValidationConfig::default();
    config.sql_injection_check = false;
    let validator = InputValidator::new(config);
    let mut context = ctx();

    // Matches only the SQL category, which is off.
    assert!(validator
        .validate_string("xp_cmdshell", "query", &mut context)
        .is_ok());
    assert_eq!(context.threat_score, 0);
}

#[test]
fn test_xxe_detection() {
    let validator = AdvancedValidator::new();
    let mut context = ctx();

    assert!(validator
        .check_xxe(
            "<!DOCTYPE foo [<!ENTITY xxe SYSTEM \"file:///etc/passwd\">]>",
            &mut context
        )
        .is_err());
}

#[test]
fn test_nosql_injection_detection() {
    let validator = AdvancedValidator::new();
    let mut context = ctx();

    assert!(validator
        .check_nosql_injection("{ \"$where\": \"1==1\" }", &mut context)
        .is_err());
    assert!(validator
        .check_nosql_injection("{ \"$regex\": \".*\" }", &mut context)
        .is_err());
}

#[test]
fn test_ldap_injection_detection() {
    let validator = AdvancedValidator::new();
    let mut context = ctx();

    assert!(validator.check_ldap_injection("*)(uid=*", &mut context).is_err());
}

#[test]
fn test_header_injection_detection() {
    let validator = AdvancedValidator::new();
    let mut context = ctx();

    assert!(validator
        .check_header_injection("value\r\nX-Injected: bad", &mut context)
        .is_err());
}

#[test]
fn template_injection_is_detected() {
    let validator = AdvancedValidator::new();
    let mut context = ctx();

    assert!(validator
        .check_template_injection("{{7*7}}", &mut context)
        .is_err());
    assert!(validator
        .check_template_injection("a plain sentence", &mut context)
        .is_ok());
}
